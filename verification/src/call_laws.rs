//! What holds of the called names as a whole: they are those of the calls that stand anywhere below.

use vstd::prelude::*;

use crate::ast::{Expr, FnDef, Item, MatchArm, Module, Stmt};
use crate::calls;
use crate::reachability;
use crate::text;

verus! {

/// A node of a syntax tree.
pub enum Node {
    Expr(Expr),
    Stmt(Stmt),
}

/// Whether `x` stands directly in the expression `e`.
pub open spec fn holds_expr(e: Expr, x: Expr) -> bool {
    match e {
        Expr::StructLit(_, fields, _) => exists|i: int|
            0 <= i < fields@.len() && (#[trigger] fields@[i]).1 == x,
        Expr::ArrayLit(elems, _) => elems@.contains(x),
        Expr::TupleLit(elems, _) => elems@.contains(x),
        Expr::BinOp(l, _, r, _) => x == *l || x == *r,
        Expr::UnOp(_, inner, _) => x == *inner,
        Expr::Call(callee, args, _) => x == *callee || args@.contains(x),
        Expr::MethodCall(receiver, _, args, _) => x == *receiver || args@.contains(x),
        Expr::FieldAccess(base, _, _) => x == *base,
        Expr::IndexAccess(array, index, _) => x == *array || x == *index,
        Expr::Cast(inner, _, _) => x == *inner,
        Expr::Try(inner, _) => x == *inner,
        Expr::Await(inner, _) => x == *inner,
        Expr::Assign(l, r, _) => x == *l || x == *r,
        Expr::CompoundAssign(l, _, r, _) => x == *l || x == *r,
        Expr::Range(from, to, _, _) => x == *from || x == *to,
        Expr::Return(value, _) => value matches Some(v) && x == *v,
        Expr::If { condition, elsif_branches, .. } => x == *condition || exists|i: int|
            0 <= i < elsif_branches@.len() && (#[trigger] elsif_branches@[i]).0 == x,
        Expr::Match { subject, arms, .. } => x == *subject || exists|i: int|
            0 <= i < arms@.len() && (#[trigger] arms@[i]).guard == Some(x),
        Expr::While { condition, .. } => x == *condition,
        Expr::For { iterable, .. } => x == *iterable,
        _ => false,
    }
}

/// Whether `body` is a block of the expression `e`.
pub open spec fn holds_body(e: Expr, body: Seq<Stmt>) -> bool {
    match e {
        Expr::If { then_body, elsif_branches, else_body, .. } => {
            ||| body == then_body@
            ||| exists|i: int|
                0 <= i < elsif_branches@.len() && (#[trigger] elsif_branches@[i]).1@ == body
            ||| else_body matches Some(b) && body == b@
        },
        Expr::Match { arms, .. } => exists|i: int|
            0 <= i < arms@.len() && (#[trigger] arms@[i]).body@ == body,
        Expr::While { body: b, .. } => body == b@,
        Expr::For { body: b, .. } => body == b@,
        Expr::Do { body: b, .. } => body == b@,
        Expr::Unsafe(b, _, _) => body == b@,
        Expr::Closure { body: b, .. } => body == b@,
        _ => false,
    }
}

/// Whether `x` stands directly in the statement `s`.
pub open spec fn stmt_holds_expr(s: Stmt, x: Expr) -> bool {
    match s {
        Stmt::Let { value, .. } => value == Some(x),
        Stmt::Expr(e, _) => e == x,
        Stmt::Return(value, _) => value == Some(x),
        Stmt::Break(value, _) => value == Some(x),
        _ => false,
    }
}

/// Whether `body` is that of a function which the statement `s` declares, itself or in a module.
pub open spec fn stmt_holds_body(s: Stmt, body: Seq<Stmt>) -> bool {
    match s {
        Stmt::Item(Item::FnDef(f)) => body == f.body@,
        Stmt::Item(Item::ModDecl { inline: Some(inner), .. }) => exists|i: int|
            0 <= i < inner@.len() && (#[trigger] inner@[i] matches Item::FnDef(f) && f.body@
                == body),
        _ => false,
    }
}

/// Whether `child` stands directly below `parent`.
pub open spec fn is_child(child: Node, parent: Node) -> bool {
    match (parent, child) {
        (Node::Expr(e), Node::Expr(x)) => holds_expr(e, x),
        (Node::Expr(e), Node::Stmt(t)) => exists|body: Seq<Stmt>| #[trigger]
            holds_body(e, body) && body.contains(t),
        (Node::Stmt(s), Node::Expr(x)) => stmt_holds_expr(s, x),
        (Node::Stmt(s), Node::Stmt(t)) => exists|body: Seq<Stmt>| #[trigger]
            stmt_holds_body(s, body) && body.contains(t),
    }
}

/// Whether `path` leads down from `top`.
pub open spec fn is_descent(path: Seq<Node>, top: Node) -> bool {
    &&& path.len() > 0
    &&& path[0] == top
    &&& forall|i: int| 0 <= i < path.len() - 1 ==> is_child(path[i + 1], #[trigger] path[i])
}

/// Whether `node` is a call of `name`, by an identifier or by the last segment of a path.
pub open spec fn is_call_of(node: Node, name: Seq<char>) -> bool {
    node matches Node::Expr(Expr::Call(callee, _, _)) && match *callee {
        Expr::Ident(n, _) => n@ == name,
        Expr::Path(segments, _) => segments@.len() > 0 && segments@[segments@.len() - 1]@ == name,
        _ => false,
    }
}

/// Whether a call of `name` stands anywhere at or below `top`.
pub open spec fn calls_below(top: Node, name: Seq<char>) -> bool {
    exists|path: Seq<Node>| #[trigger] is_descent(path, top) && is_call_of(path.last(), name)
}

/// The names called at or below a node.
pub open spec fn node_calls(node: Node) -> Set<Seq<char>> {
    match node {
        Node::Expr(e) => calls::expr_calls(e),
        Node::Stmt(s) => calls::stmt_calls(s),
    }
}

proof fn lemma_exprs_member(es: Seq<Expr>, n: nat, i: int)
    requires
        0 <= i < n <= es.len(),
    ensures
        calls::expr_calls(es[i]).subset_of(calls::exprs_calls(es, n)),
    decreases n,
{
    if i < n - 1 {
        lemma_exprs_member(es, (n - 1) as nat, i);
    }
}

proof fn lemma_contained_expr(es: Seq<Expr>, x: Expr)
    requires
        es.contains(x),
    ensures
        calls::expr_calls(x).subset_of(calls::exprs_calls(es, es.len())),
{
    let i = choose|i: int| 0 <= i < es.len() && es[i] == x;
    lemma_exprs_member(es, es.len(), i);
}

proof fn lemma_fields_member(fields: Seq<(String, Expr)>, n: nat, i: int)
    requires
        0 <= i < n <= fields.len(),
    ensures
        calls::expr_calls(fields[i].1).subset_of(calls::fields_calls(fields, n)),
    decreases n,
{
    if i < n - 1 {
        lemma_fields_member(fields, (n - 1) as nat, i);
    }
}

proof fn lemma_branches_member(branches: Seq<(Expr, Vec<Stmt>)>, n: nat, i: int)
    requires
        0 <= i < n <= branches.len(),
    ensures
        calls::expr_calls(branches[i].0).subset_of(calls::branches_calls(branches, n)),
        calls::body_calls(branches[i].1@).subset_of(calls::branches_calls(branches, n)),
    decreases n,
{
    if i < n - 1 {
        lemma_branches_member(branches, (n - 1) as nat, i);
    }
}

proof fn lemma_arms_member(arms: Seq<MatchArm>, n: nat, i: int)
    requires
        0 <= i < n <= arms.len(),
    ensures
        arms[i].guard matches Some(g) ==> calls::expr_calls(g).subset_of(
            calls::arms_calls(arms, n),
        ),
        calls::body_calls(arms[i].body@).subset_of(calls::arms_calls(arms, n)),
    decreases n,
{
    if i < n - 1 {
        lemma_arms_member(arms, (n - 1) as nat, i);
    }
}

proof fn lemma_items_member(items: Seq<Item>, n: nat, i: int)
    requires
        0 <= i < n <= items.len(),
    ensures
        items[i] matches Item::FnDef(f) ==> calls::body_calls(f.body@).subset_of(
            calls::items_calls(items, n),
        ),
    decreases n,
{
    if i < n - 1 {
        lemma_items_member(items, (n - 1) as nat, i);
    }
}

proof fn lemma_stmts_member(body: Seq<Stmt>, n: nat, i: int)
    requires
        0 <= i < n <= body.len(),
    ensures
        calls::stmt_calls(body[i]).subset_of(calls::stmts_calls(body, n)),
    decreases n,
{
    if i < n - 1 {
        lemma_stmts_member(body, (n - 1) as nat, i);
    }
}

/// What is called in a block of an expression is called in the expression.
proof fn lemma_body_in_expr(e: Expr, body: Seq<Stmt>)
    requires
        holds_body(e, body),
    ensures
        calls::body_calls(body).subset_of(calls::expr_calls(e)),
{
    match e {
        Expr::If { elsif_branches, .. } => {
            if exists|i: int|
                0 <= i < elsif_branches@.len() && (#[trigger] elsif_branches@[i]).1@ == body {
                let i = choose|i: int|
                    0 <= i < elsif_branches@.len() && (#[trigger] elsif_branches@[i]).1@ == body;
                lemma_branches_member(elsif_branches@, elsif_branches@.len(), i);
            }
        },
        Expr::Match { arms, .. } => {
            let i = choose|i: int| 0 <= i < arms@.len() && (#[trigger] arms@[i]).body@ == body;
            lemma_arms_member(arms@, arms@.len(), i);
        },
        _ => {},
    }
}

/// What is called directly below an expression is called in the expression.
proof fn lemma_expr_in_expr(e: Expr, x: Expr)
    requires
        holds_expr(e, x),
    ensures
        calls::expr_calls(x).subset_of(calls::expr_calls(e)),
{
    match e {
        Expr::StructLit(_, fields, _) => {
            let i = choose|i: int| 0 <= i < fields@.len() && (#[trigger] fields@[i]).1 == x;
            lemma_fields_member(fields@, fields@.len(), i);
        },
        Expr::ArrayLit(elems, _) => lemma_contained_expr(elems@, x),
        Expr::TupleLit(elems, _) => lemma_contained_expr(elems@, x),
        Expr::Call(_, args, _) => {
            if args@.contains(x) {
                lemma_contained_expr(args@, x);
            }
        },
        Expr::MethodCall(_, _, args, _) => {
            if args@.contains(x) {
                lemma_contained_expr(args@, x);
            }
        },
        Expr::If { condition, elsif_branches, .. } => {
            if x != *condition {
                let i = choose|i: int|
                    0 <= i < elsif_branches@.len() && (#[trigger] elsif_branches@[i]).0 == x;
                lemma_branches_member(elsif_branches@, elsif_branches@.len(), i);
            }
        },
        Expr::Match { subject, arms, .. } => {
            if x != *subject {
                let i = choose|i: int|
                    0 <= i < arms@.len() && (#[trigger] arms@[i]).guard == Some(x);
                lemma_arms_member(arms@, arms@.len(), i);
            }
        },
        _ => {},
    }
}

/// What is called in a child is called in the parent.
proof fn lemma_child_calls(child: Node, parent: Node)
    requires
        is_child(child, parent),
    ensures
        node_calls(child).subset_of(node_calls(parent)),
{
    match (parent, child) {
        (Node::Expr(e), Node::Expr(x)) => lemma_expr_in_expr(e, x),
        (Node::Expr(e), Node::Stmt(t)) => {
            let body = choose|body: Seq<Stmt>| #[trigger] holds_body(e, body) && body.contains(t);
            let i = choose|i: int| 0 <= i < body.len() && body[i] == t;
            lemma_stmts_member(body, body.len(), i);
            lemma_body_in_expr(e, body);
        },
        (Node::Stmt(_), Node::Expr(_)) => {},
        (Node::Stmt(s), Node::Stmt(t)) => {
            let body = choose|body: Seq<Stmt>| #[trigger]
                stmt_holds_body(s, body) && body.contains(t);
            let i = choose|i: int| 0 <= i < body.len() && body[i] == t;
            lemma_stmts_member(body, body.len(), i);
            match s {
                Stmt::Item(Item::ModDecl { inline: Some(inner), .. }) => {
                    let k = choose|k: int|
                        0 <= k < inner@.len() && (#[trigger] inner@[k] matches Item::FnDef(f)
                            && f.body@ == body);
                    lemma_items_member(inner@, inner@.len(), k);
                },
                _ => {},
            }
        },
    }
}

proof fn lemma_descent_calls(path: Seq<Node>, top: Node, k: int)
    requires
        is_descent(path, top),
        0 <= k < path.len(),
    ensures
        node_calls(path[k]).subset_of(node_calls(top)),
    decreases k,
{
    if k > 0 {
        lemma_descent_calls(path, top, k - 1);
        assert(is_child(path[k - 1 + 1], path[k - 1]));
        lemma_child_calls(path[k], path[k - 1]);
    }
}

/// A call below a child is a call below the parent.
proof fn lemma_descend(child: Node, parent: Node, name: Seq<char>)
    requires
        is_child(child, parent),
        calls_below(child, name),
    ensures
        calls_below(parent, name),
{
    let path = choose|path: Seq<Node>| #[trigger]
        is_descent(path, child) && is_call_of(path.last(), name);
    let longer = seq![parent] + path;
    assert forall|i: int| 0 <= i < longer.len() - 1 implies is_child(
        longer[i + 1],
        #[trigger] longer[i],
    ) by {
        if i > 0 {
            assert(longer[i] == path[i - 1]);
            assert(is_child(path[i - 1 + 1], path[i - 1]));
        }
    }
    assert(is_descent(longer, parent));
    assert(longer.last() == path.last());
}

/// A node that is a call calls its own name.
proof fn lemma_call_itself(node: Node, name: Seq<char>)
    requires
        is_call_of(node, name),
    ensures
        calls_below(node, name),
        node_calls(node).contains(name),
{
    let path = seq![node];
    assert(is_descent(path, node));
    assert(path.last() == node);
}

proof fn lemma_origin_in_exprs(es: Seq<Expr>, n: nat, name: Seq<char>) -> (i: int)
    requires
        n <= es.len(),
        calls::exprs_calls(es, n).contains(name),
    ensures
        0 <= i < n,
        es.contains(es[i]),
        calls_below(Node::Expr(es[i]), name),
    decreases es, n,
{
    if calls::expr_calls(es[n - 1]).contains(name) {
        lemma_origin_in_expr(es[n - 1], name);
        n - 1
    } else {
        lemma_origin_in_exprs(es, (n - 1) as nat, name)
    }
}

proof fn lemma_origin_in_fields(fields: Seq<(String, Expr)>, n: nat, name: Seq<char>) -> (i: int)
    requires
        n <= fields.len(),
        calls::fields_calls(fields, n).contains(name),
    ensures
        0 <= i < n,
        calls_below(Node::Expr(fields[i].1), name),
    decreases fields, n,
{
    if calls::expr_calls(fields[n - 1].1).contains(name) {
        lemma_origin_in_expr(fields[n - 1].1, name);
        n - 1
    } else {
        lemma_origin_in_fields(fields, (n - 1) as nat, name)
    }
}

proof fn lemma_origin_in_stmts(body: Seq<Stmt>, n: nat, name: Seq<char>) -> (i: int)
    requires
        n <= body.len(),
        calls::stmts_calls(body, n).contains(name),
    ensures
        0 <= i < n,
        body.contains(body[i]),
        calls_below(Node::Stmt(body[i]), name),
    decreases body, n,
{
    if calls::stmt_calls(body[n - 1]).contains(name) {
        lemma_origin_in_stmt(body[n - 1], name);
        n - 1
    } else {
        lemma_origin_in_stmts(body, (n - 1) as nat, name)
    }
}

/// The result tells whether the call is in the condition of the branch.
proof fn lemma_origin_in_branches(
    branches: Seq<(Expr, Vec<Stmt>)>,
    n: nat,
    name: Seq<char>,
) -> (r: (int, bool, int))
    requires
        n <= branches.len(),
        calls::branches_calls(branches, n).contains(name),
    ensures
        0 <= r.0 < n,
        r.1 ==> calls_below(Node::Expr(branches[r.0].0), name),
        !r.1 ==> 0 <= r.2 < branches[r.0].1@.len() && calls_below(
            Node::Stmt(branches[r.0].1@[r.2]),
            name,
        ),
    decreases branches, n,
{
    let last = branches[n - 1];
    if calls::expr_calls(last.0).contains(name) {
        lemma_origin_in_expr(last.0, name);
        (n - 1, true, 0)
    } else if calls::stmts_calls(last.1@, last.1@.len()).contains(name) {
        let k = lemma_origin_in_stmts(last.1@, last.1@.len(), name);
        (n - 1, false, k)
    } else {
        lemma_origin_in_branches(branches, (n - 1) as nat, name)
    }
}

/// The result tells whether the call is in the guard of the arm.
proof fn lemma_origin_in_arms(arms: Seq<MatchArm>, n: nat, name: Seq<char>) -> (r: (
    int,
    bool,
    int,
))
    requires
        n <= arms.len(),
        calls::arms_calls(arms, n).contains(name),
    ensures
        0 <= r.0 < n,
        r.1 ==> (arms[r.0].guard matches Some(g) && calls_below(Node::Expr(g), name)),
        !r.1 ==> 0 <= r.2 < arms[r.0].body@.len() && calls_below(
            Node::Stmt(arms[r.0].body@[r.2]),
            name,
        ),
    decreases arms, n,
{
    let last = arms[n - 1];
    if calls::stmts_calls(last.body@, last.body@.len()).contains(name) {
        let k = lemma_origin_in_stmts(last.body@, last.body@.len(), name);
        (n - 1, false, k)
    } else if calls::arms_calls(arms, (n - 1) as nat).contains(name) {
        lemma_origin_in_arms(arms, (n - 1) as nat, name)
    } else {
        match last.guard {
            Some(g) => lemma_origin_in_expr(g, name),
            None => {},
        }
        (n - 1, true, 0)
    }
}

proof fn lemma_origin_in_items(items: Seq<Item>, n: nat, name: Seq<char>) -> (r: (int, int))
    requires
        n <= items.len(),
        calls::items_calls(items, n).contains(name),
    ensures
        0 <= r.0 < n,
        items[r.0] matches Item::FnDef(f) && 0 <= r.1 < f.body@.len() && calls_below(
            Node::Stmt(f.body@[r.1]),
            name,
        ),
    decreases items, n,
{
    if calls::items_calls(items, (n - 1) as nat).contains(name) {
        lemma_origin_in_items(items, (n - 1) as nat, name)
    } else {
        match items[n - 1] {
            Item::FnDef(f) => {
                let k = lemma_origin_in_stmts(f.body@, f.body@.len(), name);
                (n - 1, k)
            },
            _ => (n - 1, 0),
        }
    }
}

/// A call in a block of an expression is below the expression.
proof fn lemma_origin_in_body(e: Expr, body: Seq<Stmt>, k: int, name: Seq<char>)
    requires
        holds_body(e, body),
        0 <= k < body.len(),
        calls_below(Node::Stmt(body[k]), name),
    ensures
        calls_below(Node::Expr(e), name),
{
    assert(body.contains(body[k]));
    assert(is_child(Node::Stmt(body[k]), Node::Expr(e)));
    lemma_descend(Node::Stmt(body[k]), Node::Expr(e), name);
}

proof fn lemma_origin_in_block(e: Expr, body: Seq<Stmt>, name: Seq<char>)
    requires
        holds_body(e, body),
        calls::stmts_calls(body, body.len()).contains(name),
    ensures
        calls_below(Node::Expr(e), name),
    decreases body, body.len() + 1,
{
    let k = lemma_origin_in_stmts(body, body.len(), name);
    lemma_origin_in_body(e, body, k, name);
}

proof fn lemma_origin_in_child(e: Expr, x: Expr, name: Seq<char>)
    requires
        holds_expr(e, x),
        calls::expr_calls(x).contains(name),
    ensures
        calls_below(Node::Expr(e), name),
    decreases x, 1nat,
{
    lemma_origin_in_expr(x, name);
    lemma_descend(Node::Expr(x), Node::Expr(e), name);
}

proof fn lemma_origin_in_list(e: Expr, es: Seq<Expr>, name: Seq<char>)
    requires
        forall|x: Expr| es.contains(x) ==> holds_expr(e, x),
        calls::exprs_calls(es, es.len()).contains(name),
    ensures
        calls_below(Node::Expr(e), name),
    decreases es, es.len() + 1,
{
    let i = lemma_origin_in_exprs(es, es.len(), name);
    lemma_descend(Node::Expr(es[i]), Node::Expr(e), name);
}

proof fn lemma_origin_in_pair(e: Expr, l: Expr, r: Expr, name: Seq<char>)
    requires
        holds_expr(e, l),
        holds_expr(e, r),
        decreases_to!(e => l),
        decreases_to!(e => r),
        calls::expr_calls(l).contains(name) || calls::expr_calls(r).contains(name),
    ensures
        calls_below(Node::Expr(e), name),
    decreases e, 0nat, 0nat,
{
    if calls::expr_calls(l).contains(name) {
        lemma_origin_in_child(e, l, name);
    } else {
        lemma_origin_in_child(e, r, name);
    }
}

proof fn lemma_origin_in_expr(e: Expr, name: Seq<char>)
    requires
        calls::expr_calls(e).contains(name),
    ensures
        calls_below(Node::Expr(e), name),
    decreases e, 0nat, 1nat,
{
    match e {
        Expr::Call(callee, args, _) => {
            if is_call_of(Node::Expr(e), name) {
                lemma_call_itself(Node::Expr(e), name);
            } else if calls::expr_calls(*callee).contains(name) {
                lemma_origin_in_child(e, *callee, name);
            } else {
                lemma_origin_in_list(e, args@, name);
            }
        },
        Expr::MethodCall(receiver, _, args, _) => {
            if calls::expr_calls(*receiver).contains(name) {
                lemma_origin_in_child(e, *receiver, name);
            } else {
                lemma_origin_in_list(e, args@, name);
            }
        },
        Expr::BinOp(l, _, r, _) => lemma_origin_in_pair(e, *l, *r, name),
        Expr::Range(l, r, _, _) => lemma_origin_in_pair(e, *l, *r, name),
        Expr::Assign(l, r, _) => lemma_origin_in_pair(e, *l, *r, name),
        Expr::CompoundAssign(l, _, r, _) => lemma_origin_in_pair(e, *l, *r, name),
        Expr::IndexAccess(l, r, _) => lemma_origin_in_pair(e, *l, *r, name),
        Expr::UnOp(_, inner, _) => lemma_origin_in_child(e, *inner, name),
        Expr::Cast(inner, _, _) => lemma_origin_in_child(e, *inner, name),
        Expr::Try(inner, _) => lemma_origin_in_child(e, *inner, name),
        Expr::Await(inner, _) => lemma_origin_in_child(e, *inner, name),
        Expr::FieldAccess(inner, _, _) => lemma_origin_in_child(e, *inner, name),
        Expr::ArrayLit(elems, _) => lemma_origin_in_list(e, elems@, name),
        Expr::TupleLit(elems, _) => lemma_origin_in_list(e, elems@, name),
        Expr::StructLit(_, fields, _) => {
            let i = lemma_origin_in_fields(fields@, fields@.len(), name);
            assert(holds_expr(e, fields@[i].1));
            lemma_descend(Node::Expr(fields@[i].1), Node::Expr(e), name);
        },
        Expr::Return(value, _) => {
            match value {
                Some(inner) => lemma_origin_in_child(e, *inner, name),
                None => {},
            }
        },
        Expr::If { condition, then_body, elsif_branches, else_body, .. } => {
            if calls::expr_calls(*condition).contains(name) {
                lemma_origin_in_child(e, *condition, name);
            } else if calls::stmts_calls(then_body@, then_body@.len()).contains(name) {
                lemma_origin_in_block(e, then_body@, name);
            } else if calls::branches_calls(elsif_branches@, elsif_branches@.len()).contains(
                name,
            ) {
                let (i, in_condition, k) = lemma_origin_in_branches(
                    elsif_branches@,
                    elsif_branches@.len(),
                    name,
                );
                if in_condition {
                    assert(holds_expr(e, elsif_branches@[i].0));
                    lemma_descend(Node::Expr(elsif_branches@[i].0), Node::Expr(e), name);
                } else {
                    lemma_origin_in_body(e, elsif_branches@[i].1@, k, name);
                }
            } else {
                match else_body {
                    Some(body) => lemma_origin_in_block(e, body@, name),
                    None => {},
                }
            }
        },
        Expr::Match { subject, arms, .. } => {
            if calls::expr_calls(*subject).contains(name) {
                lemma_origin_in_child(e, *subject, name);
            } else {
                let (i, in_guard, k) = lemma_origin_in_arms(arms@, arms@.len(), name);
                if in_guard {
                    match arms@[i].guard {
                        Some(g) => {
                            assert(holds_expr(e, g));
                            lemma_descend(Node::Expr(g), Node::Expr(e), name);
                        },
                        None => {},
                    }
                } else {
                    lemma_origin_in_body(e, arms@[i].body@, k, name);
                }
            }
        },
        Expr::While { condition, body, .. } => {
            if calls::expr_calls(*condition).contains(name) {
                lemma_origin_in_child(e, *condition, name);
            } else {
                lemma_origin_in_block(e, body@, name);
            }
        },
        Expr::For { iterable, body, .. } => {
            if calls::expr_calls(*iterable).contains(name) {
                lemma_origin_in_child(e, *iterable, name);
            } else {
                lemma_origin_in_block(e, body@, name);
            }
        },
        Expr::Do { body, .. } => lemma_origin_in_block(e, body@, name),
        Expr::Unsafe(body, _, _) => lemma_origin_in_block(e, body@, name),
        Expr::Closure { body, .. } => lemma_origin_in_block(e, body@, name),
        _ => {},
    }
}

proof fn lemma_origin_in_stmt(s: Stmt, name: Seq<char>)
    requires
        calls::stmt_calls(s).contains(name),
    ensures
        calls_below(Node::Stmt(s), name),
    decreases s, 0nat, 1nat,
{
    match s {
        Stmt::Let { value: Some(e), .. } => {
            lemma_origin_in_expr(e, name);
            lemma_descend(Node::Expr(e), Node::Stmt(s), name);
        },
        Stmt::Expr(e, _) => {
            lemma_origin_in_expr(e, name);
            lemma_descend(Node::Expr(e), Node::Stmt(s), name);
        },
        Stmt::Return(Some(e), _) => {
            lemma_origin_in_expr(e, name);
            lemma_descend(Node::Expr(e), Node::Stmt(s), name);
        },
        Stmt::Break(Some(e), _) => {
            lemma_origin_in_expr(e, name);
            lemma_descend(Node::Expr(e), Node::Stmt(s), name);
        },
        Stmt::Item(Item::FnDef(f)) => {
            let k = lemma_origin_in_stmts(f.body@, f.body@.len(), name);
            assert(stmt_holds_body(s, f.body@));
            lemma_descend(Node::Stmt(f.body@[k]), Node::Stmt(s), name);
        },
        Stmt::Item(Item::ModDecl { inline: Some(inner), .. }) => {
            let (i, k) = lemma_origin_in_items(inner@, inner@.len(), name);
            match inner@[i] {
                Item::FnDef(f) => {
                    assert(f.body@.contains(f.body@[k]));
                    assert(stmt_holds_body(s, f.body@));
                    lemma_descend(Node::Stmt(f.body@[k]), Node::Stmt(s), name);
                },
                _ => {},
            }
        },
        _ => {},
    }
}

/// The names that an expression or a statement calls are exactly those of the calls that stand
/// anywhere at or below it, in whatever operand, argument, branch or block.
pub proof fn law_called_names_are_those_of_the_calls(node: Node, name: Seq<char>)
    ensures
        node_calls(node).contains(name) <==> calls_below(node, name),
{
    if node_calls(node).contains(name) {
        match node {
            Node::Expr(e) => lemma_origin_in_expr(e, name),
            Node::Stmt(s) => lemma_origin_in_stmt(s, name),
        }
    }
    if calls_below(node, name) {
        let path = choose|path: Seq<Node>| #[trigger]
            is_descent(path, node) && is_call_of(path.last(), name);
        lemma_descent_calls(path, node, path.len() - 1);
        lemma_call_itself(path.last(), name);
    }
}

/// The names that a body calls are exactly those of the calls below its statements.
pub proof fn law_bodies_call_what_their_statements_call(body: Seq<Stmt>, name: Seq<char>)
    ensures
        calls::body_calls(body).contains(name) <==> exists|i: int|
            0 <= i < body.len() && calls_below(Node::Stmt(#[trigger] body[i]), name),
{
    if calls::body_calls(body).contains(name) {
        let i = lemma_origin_in_stmts(body, body.len(), name);
        assert(calls_below(Node::Stmt(body[i]), name));
    }
    if exists|i: int| 0 <= i < body.len() && calls_below(Node::Stmt(#[trigger] body[i]), name) {
        let i = choose|i: int|
            0 <= i < body.len() && calls_below(Node::Stmt(#[trigger] body[i]), name);
        law_called_names_are_those_of_the_calls(Node::Stmt(body[i]), name);
        lemma_stmts_member(body, body.len(), i);
    }
}

/// A function whose call stands anywhere in the body of a reachable function or method is
/// reachable, where there is an entry point.
pub proof fn law_calls_in_reachable_bodies_are_reachable(
    module: Module,
    caller: Seq<char>,
    i: int,
    name: Seq<char>,
)
    requires
        reachability::module_bodies(module).contains_key("main"@),
        reachability::reachable_names(module).contains(caller),
        reachability::module_bodies(module).contains_key(caller),
        0 <= i < reachability::module_bodies(module)[caller].len(),
        calls_below(Node::Stmt(reachability::module_bodies(module)[caller][i]), name),
    ensures
        reachability::reachable_names(module).contains(name),
{
    let body = reachability::module_bodies(module)[caller];
    assert(calls_below(Node::Stmt(body[i]), name));
    law_bodies_call_what_their_statements_call(body, name);
    assert(reachability::walks_to(reachability::module_bodies(module), caller, name));
    reachability::law_callees_are_reachable(module, caller, name);
}

/// Whatever is reachable is the entry point, a method, or called in the body of something
/// reachable, where there is an entry point.
pub proof fn law_reachable_names_have_a_caller(module: Module, name: Seq<char>)
    requires
        reachability::module_bodies(module).contains_key("main"@),
        reachability::reachable_names(module).contains(name),
    ensures
        name == "main"@ || text::has_text(name, "__impl_method__"@) || exists|caller: Seq<char>, i: int|
            {
                &&& reachability::reachable_names(module).contains(caller)
                &&& reachability::module_bodies(module).contains_key(caller)
                &&& 0 <= i < reachability::module_bodies(module)[caller].len()
                &&& calls_below(
                    Node::Stmt(#[trigger] reachability::module_bodies(module)[caller][i]),
                    name,
                )
            },
{
    let bodies = reachability::module_bodies(module);
    let path = choose|path: Seq<Seq<char>>| #[trigger]
        reachability::is_walk(bodies, path) && path.last() == name;
    if path.len() > 1 {
        let shorter = path.drop_last();
        let caller = shorter.last();
        assert forall|k: int| 0 <= k < shorter.len() - 1 implies reachability::walks_to(
            bodies,
            #[trigger] shorter[k],
            shorter[k + 1],
        ) by {
            assert(shorter[k] == path[k]);
        }
        assert(reachability::is_walk(bodies, shorter));
        assert(reachability::walked(bodies, caller));
        assert(reachability::walks_to(bodies, path[path.len() - 2], path[path.len() - 2 + 1]));
        law_bodies_call_what_their_statements_call(bodies[caller], name);
        let i = choose|i: int|
            0 <= i < bodies[caller].len() && calls_below(
                Node::Stmt(#[trigger] bodies[caller][i]),
                name,
            );
        assert(calls_below(Node::Stmt(bodies[caller][i]), name));
    }
}

/// Where `main` is not defined, exactly what has a body is reachable.
pub proof fn law_libraries_are_kept_whole(module: Module, name: Seq<char>)
    requires
        !reachability::module_bodies(module).contains_key("main"@),
    ensures
        reachability::reachable_names(module).contains(name) <==> reachability::module_bodies(
            module,
        ).contains_key(name),
{
}

/// Where they have a body, `main` and every name with the mark of a method anywhere in it are
/// reachable.
pub proof fn law_starts_are_reachable(module: Module, name: Seq<char>)
    requires
        reachability::module_bodies(module).contains_key(name),
        name == "main"@ || text::has_text(name, "__impl_method__"@),
    ensures
        reachability::reachable_names(module).contains(name),
{
    let bodies = reachability::module_bodies(module);
    let path = seq![name];
    if bodies.contains_key("main"@) {
        assert(reachability::is_walk(bodies, path));
        assert(path.last() == name);
    }
}

/// One more item behind others adds its function, the functions of its module or its methods, and
/// what it adds counts; any other item adds nothing.
pub proof fn law_bodies_of_one_more_item(items: Seq<Item>, item: Item, name: Seq<char>)
    ensures
        ({
            let before = reachability::fn_bodies(items, items.len());
            let after = reachability::fn_bodies(items.push(item), items.push(item).len());
            match item {
                Item::FnDef(f) => after == before.insert(f.name@, f.body@),
                Item::ModDecl { inline: Some(inner), .. } => {
                    let own = reachability::fn_bodies(inner@, inner@.len());
                    &&& after.contains_key(name) <==> before.contains_key(name) || own.contains_key(
                        name,
                    )
                    &&& own.contains_key(name) ==> after[name] == own[name]
                    &&& before.contains_key(name) && !own.contains_key(name) ==> after[name]
                        == before[name]
                },
                Item::ImplBlock(block) => {
                    &&& (forall|k: int|
                        0 <= k < block.methods@.len() ==> "__impl_method__"@ + (
                        #[trigger] block.methods@[k]).name@ != name) ==> (after.contains_key(name)
                        <==> before.contains_key(name)) && (before.contains_key(name)
                        ==> after[name] == before[name])
                    &&& forall|k: int|
                        is_last_method(block.methods@, k) ==> after.contains_key(
                            "__impl_method__"@ + (#[trigger] block.methods@[k]).name@,
                        ) && after["__impl_method__"@ + block.methods@[k].name@]
                            == block.methods@[k].body@
                },
                _ => after == before,
            }
        }),
{
    let longer = items.push(item);
    let before = reachability::fn_bodies(items, items.len());
    let one = seq![item];
    assert(longer =~= items + one);
    reachability::law_bodies_of_concatenation(items, one);
    let empty = Map::<Seq<char>, Seq<Stmt>>::empty();
    assert(reachability::fn_bodies(one, 0) == empty);
    let own = reachability::fn_bodies(one, 1);
    let after = reachability::fn_bodies(longer, longer.len());
    assert(after == before.union_prefer_right(own));
    match item {
        Item::FnDef(f) => {
            assert(own == empty.insert(f.name@, f.body@));
            assert(after =~= before.insert(f.name@, f.body@));
        },
        Item::ModDecl { inline: Some(inner), .. } => {
            assert(own =~= reachability::fn_bodies(inner@, inner@.len()));
        },
        Item::ImplBlock(block) => {
            let methods = block.methods@;
            assert(own == reachability::with_methods(empty, methods, methods.len()));
            lemma_methods_keep_others(empty, methods, methods.len(), name);
            assert forall|k: int| is_last_method(methods, k) implies own.contains_key(
                "__impl_method__"@ + (#[trigger] methods[k]).name@,
            ) && own["__impl_method__"@ + methods[k].name@] == methods[k].body@ by {
                lemma_last_method_counts(empty, methods, methods.len(), k);
            }
        },
        _ => {
            assert(own == empty);
            assert(after =~= before);
        },
    }
}

/// Whether `methods[k]` is the last of its name.
pub open spec fn is_last_method(methods: Seq<FnDef>, k: int) -> bool {
    &&& 0 <= k < methods.len()
    &&& forall|j: int| k < j < methods.len() ==> (#[trigger] methods[j]).name@ != methods[k].name@
}

proof fn lemma_methods_keep_others(
    bodies: Map<Seq<char>, Seq<Stmt>>,
    methods: Seq<FnDef>,
    n: nat,
    name: Seq<char>,
)
    requires
        n <= methods.len(),
    ensures
        (forall|k: int|
            0 <= k < n ==> "__impl_method__"@ + (#[trigger] methods[k]).name@ != name) ==> (
        reachability::with_methods(bodies, methods, n).contains_key(name) <==> bodies.contains_key(
            name,
        )) && (bodies.contains_key(name) ==> reachability::with_methods(bodies, methods, n)[name]
            == bodies[name]),
    decreases n,
{
    if n > 0 {
        lemma_methods_keep_others(bodies, methods, (n - 1) as nat, name);
        if forall|k: int|
            0 <= k < n ==> "__impl_method__"@ + (#[trigger] methods[k]).name@ != name {
            assert("__impl_method__"@ + methods[n - 1].name@ != name);
        }
    }
}

proof fn lemma_last_method_counts(
    bodies: Map<Seq<char>, Seq<Stmt>>,
    methods: Seq<FnDef>,
    n: nat,
    k: int,
)
    requires
        n <= methods.len(),
        0 <= k < n,
        forall|j: int| k < j < n ==> (#[trigger] methods[j]).name@ != methods[k].name@,
    ensures
        reachability::with_methods(bodies, methods, n).contains_key(
            "__impl_method__"@ + methods[k].name@,
        ),
        reachability::with_methods(bodies, methods, n)["__impl_method__"@ + methods[k].name@]
            == methods[k].body@,
    decreases n,
{
    if k < n - 1 {
        lemma_last_method_counts(bodies, methods, (n - 1) as nat, k);
        let tag = "__impl_method__"@;
        let mine = tag + methods[k].name@;
        let other = tag + methods[n - 1].name@;
        assert(mine != other) by {
            assert(mine.skip(tag.len() as int) =~= methods[k].name@);
            assert(other.skip(tag.len() as int) =~= methods[n - 1].name@);
        }
    }
}

} // verus!
