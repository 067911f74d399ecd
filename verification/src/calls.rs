//! The names that a statement or an expression calls.

use vstd::prelude::*;

use crate::ast::{Expr, Item, MatchArm, Stmt};
use crate::names::NameSet;

verus! {

/// The name by which a call resolves its callee: an identifier, or the last segment of a path.
pub open spec fn callee_text(callee: Expr) -> Option<Seq<char>> {
    match callee {
        Expr::Ident(name, _) => Some(name@),
        Expr::Path(segments, _) => if segments@.len() > 0 {
            Some(segments@.last()@)
        } else {
            None
        },
        _ => None,
    }
}

/// The set with the one name of `name`, or the empty set.
pub open spec fn named(name: Option<Seq<char>>) -> Set<Seq<char>> {
    match name {
        Some(n) => Set::empty().insert(n),
        None => Set::empty(),
    }
}

/// The names called anywhere in `e`.
pub open spec fn expr_calls(e: Expr) -> Set<Seq<char>>
    decreases e, 0nat,
{
    match e {
        Expr::Call(callee, args, _) => named(callee_text(*callee)) + expr_calls(*callee)
            + exprs_calls(args@, args@.len()),
        Expr::MethodCall(receiver, _, args, _) => expr_calls(*receiver) + exprs_calls(
            args@,
            args@.len(),
        ),
        Expr::BinOp(l, _, r, _) => expr_calls(*l) + expr_calls(*r),
        Expr::Range(l, r, _, _) => expr_calls(*l) + expr_calls(*r),
        Expr::Assign(l, r, _) => expr_calls(*l) + expr_calls(*r),
        Expr::CompoundAssign(l, _, r, _) => expr_calls(*l) + expr_calls(*r),
        Expr::IndexAccess(l, r, _) => expr_calls(*l) + expr_calls(*r),
        Expr::UnOp(_, inner, _) => expr_calls(*inner),
        Expr::Cast(inner, _, _) => expr_calls(*inner),
        Expr::Try(inner, _) => expr_calls(*inner),
        Expr::Await(inner, _) => expr_calls(*inner),
        Expr::FieldAccess(inner, _, _) => expr_calls(*inner),
        Expr::ArrayLit(elems, _) => exprs_calls(elems@, elems@.len()),
        Expr::TupleLit(elems, _) => exprs_calls(elems@, elems@.len()),
        Expr::StructLit(_, fields, _) => fields_calls(fields@, fields@.len()),
        Expr::Return(value, _) => match value {
            Some(inner) => expr_calls(*inner),
            None => Set::empty(),
        },
        Expr::If { condition, then_body, elsif_branches, else_body, .. } => expr_calls(*condition)
            + stmts_calls(then_body@, then_body@.len()) + branches_calls(
            elsif_branches@,
            elsif_branches@.len(),
        ) + match else_body {
            Some(body) => stmts_calls(body@, body@.len()),
            None => Set::empty(),
        },
        Expr::Match { subject, arms, .. } => expr_calls(*subject) + arms_calls(arms@, arms@.len()),
        Expr::While { condition, body, .. } => expr_calls(*condition) + stmts_calls(
            body@,
            body@.len(),
        ),
        Expr::For { iterable, body, .. } => expr_calls(*iterable) + stmts_calls(body@, body@.len()),
        Expr::Do { body, .. } => stmts_calls(body@, body@.len()),
        Expr::Unsafe(body, _, _) => stmts_calls(body@, body@.len()),
        Expr::Closure { body, .. } => stmts_calls(body@, body@.len()),
        _ => Set::empty(),
    }
}

/// The names called in the first `n` expressions of `es`.
pub open spec fn exprs_calls(es: Seq<Expr>, n: nat) -> Set<Seq<char>>
    decreases es, n,
{
    if n == 0 || n > es.len() {
        Set::empty()
    } else {
        exprs_calls(es, (n - 1) as nat) + expr_calls(es[n - 1])
    }
}

/// The names called in the values of the first `n` fields.
pub open spec fn fields_calls(fields: Seq<(String, Expr)>, n: nat) -> Set<Seq<char>>
    decreases fields, n,
{
    if n == 0 || n > fields.len() {
        Set::empty()
    } else {
        fields_calls(fields, (n - 1) as nat) + expr_calls(fields[n - 1].1)
    }
}

/// The names called in the first `n` conditions and bodies.
pub open spec fn branches_calls(branches: Seq<(Expr, Vec<Stmt>)>, n: nat) -> Set<Seq<char>>
    decreases branches, n,
{
    if n == 0 || n > branches.len() {
        Set::empty()
    } else {
        branches_calls(branches, (n - 1) as nat) + expr_calls(branches[n - 1].0) + stmts_calls(
            branches[n - 1].1@,
            branches[n - 1].1@.len(),
        )
    }
}

/// The names called in the guards and bodies of the first `n` arms.
pub open spec fn arms_calls(arms: Seq<MatchArm>, n: nat) -> Set<Seq<char>>
    decreases arms, n,
{
    if n == 0 || n > arms.len() {
        Set::empty()
    } else {
        arms_calls(arms, (n - 1) as nat) + (match arms[n - 1].guard {
            Some(guard) => expr_calls(guard),
            None => Set::empty(),
        }) + stmts_calls(arms[n - 1].body@, arms[n - 1].body@.len())
    }
}

/// The names called in the functions among the first `n` items.
pub open spec fn items_calls(items: Seq<Item>, n: nat) -> Set<Seq<char>>
    decreases items, n,
{
    if n == 0 || n > items.len() {
        Set::empty()
    } else {
        items_calls(items, (n - 1) as nat) + match items[n - 1] {
            Item::FnDef(f) => stmts_calls(f.body@, f.body@.len()),
            _ => Set::empty(),
        }
    }
}

/// The names called in `s`, nested functions included.
pub open spec fn stmt_calls(s: Stmt) -> Set<Seq<char>>
    decreases s, 0nat,
{
    match s {
        Stmt::Let { value: Some(e), .. } => expr_calls(e),
        Stmt::Expr(e, _) => expr_calls(e),
        Stmt::Return(Some(e), _) => expr_calls(e),
        Stmt::Break(Some(e), _) => expr_calls(e),
        Stmt::Item(Item::FnDef(f)) => stmts_calls(f.body@, f.body@.len()),
        Stmt::Item(Item::ModDecl { inline: Some(inner), .. }) => items_calls(inner@, inner@.len()),
        _ => Set::empty(),
    }
}

/// The names called in the first `n` statements of `body`.
pub open spec fn stmts_calls(body: Seq<Stmt>, n: nat) -> Set<Seq<char>>
    decreases body, n,
{
    if n == 0 || n > body.len() {
        Set::empty()
    } else {
        stmts_calls(body, (n - 1) as nat) + stmt_calls(body[n - 1])
    }
}

/// The names called in a function body.
pub open spec fn body_calls(body: Seq<Stmt>) -> Set<Seq<char>> {
    stmts_calls(body, body.len())
}

/// The name by which a call resolves its callee.
pub fn callee_name(callee: &Expr) -> (r: Option<String>)
    ensures
        r is Some <==> callee_text(*callee) is Some,
        r matches Some(name) ==> callee_text(*callee) == Some(name@),
{
    match callee {
        Expr::Ident(name, _) => Some(name.clone()),
        Expr::Path(segments, _) => {
            if segments.len() > 0 {
                Some(segments[segments.len() - 1].clone())
            } else {
                None
            }
        },
        _ => None,
    }
}

/// Adds to `out` the names called anywhere in `expr`.
pub fn collect_calls_expr(expr: &Expr, out: &mut NameSet)
    requires
        old(out).wf(),
    ensures
        final(out).wf(),
        final(out)@ == old(out)@ + expr_calls(*expr),
    decreases *expr, 0nat,
{
    let ghost start = out@;
    match expr {
        Expr::Call(callee, args, _) => {
            if let Some(name) = callee_name(callee) {
                out.insert(name);
            }
            assert(out@ =~= start + named(callee_text(**callee)));
            collect_calls_expr(callee, out);
            collect_calls_exprs(args, out);
        },
        Expr::MethodCall(receiver, _, args, _) => {
            collect_calls_expr(receiver, out);
            collect_calls_exprs(args, out);
        },
        Expr::BinOp(l, _, r, _) => {
            collect_calls_expr(l, out);
            collect_calls_expr(r, out);
        },
        Expr::Range(l, r, _, _) => {
            collect_calls_expr(l, out);
            collect_calls_expr(r, out);
        },
        Expr::Assign(l, r, _) => {
            collect_calls_expr(l, out);
            collect_calls_expr(r, out);
        },
        Expr::CompoundAssign(l, _, r, _) => {
            collect_calls_expr(l, out);
            collect_calls_expr(r, out);
        },
        Expr::IndexAccess(l, r, _) => {
            collect_calls_expr(l, out);
            collect_calls_expr(r, out);
        },
        Expr::UnOp(_, inner, _) => collect_calls_expr(inner, out),
        Expr::Cast(inner, _, _) => collect_calls_expr(inner, out),
        Expr::Try(inner, _) => collect_calls_expr(inner, out),
        Expr::Await(inner, _) => collect_calls_expr(inner, out),
        Expr::FieldAccess(inner, _, _) => collect_calls_expr(inner, out),
        Expr::ArrayLit(elems, _) => collect_calls_exprs(elems, out),
        Expr::TupleLit(elems, _) => collect_calls_exprs(elems, out),
        Expr::StructLit(_, fields, _) => {
            let mut i: usize = 0;
            while i < fields.len()
                invariant
                    i <= fields@.len(),
                    out.wf(),
                    out@ == start + fields_calls(fields@, i as nat),
                    decreases_to!(*expr => fields@),
                decreases fields@.len() - i,
            {
                collect_calls_expr(&fields[i].1, out);
                i = i + 1;
                assert(out@ =~= start + fields_calls(fields@, i as nat));
            }
        },
        Expr::Return(value, _) => {
            if let Some(inner) = value {
                collect_calls_expr(inner, out);
            }
        },
        Expr::If { condition, then_body, elsif_branches, else_body, .. } => {
            collect_calls_expr(condition, out);
            collect_calls_block(then_body, out);
            let ghost mid = out@;
            let mut i: usize = 0;
            while i < elsif_branches.len()
                invariant
                    i <= elsif_branches@.len(),
                    out.wf(),
                    out@ == mid + branches_calls(elsif_branches@, i as nat),
                    decreases_to!(*expr => elsif_branches@),
                decreases elsif_branches@.len() - i,
            {
                collect_calls_expr(&elsif_branches[i].0, out);
                collect_calls_block(&elsif_branches[i].1, out);
                i = i + 1;
                assert(out@ =~= mid + branches_calls(elsif_branches@, i as nat));
            }
            if let Some(body) = else_body {
                collect_calls_block(body, out);
            }
        },
        Expr::Match { subject, arms, .. } => {
            collect_calls_expr(subject, out);
            let ghost mid = out@;
            let mut i: usize = 0;
            while i < arms.len()
                invariant
                    i <= arms@.len(),
                    out.wf(),
                    out@ == mid + arms_calls(arms@, i as nat),
                    decreases_to!(*expr => arms@),
                decreases arms@.len() - i,
            {
                if let Some(guard) = &arms[i].guard {
                    collect_calls_expr(guard, out);
                }
                collect_calls_block(&arms[i].body, out);
                i = i + 1;
                assert(out@ =~= mid + arms_calls(arms@, i as nat));
            }
        },
        Expr::While { condition, body, .. } => {
            collect_calls_expr(condition, out);
            collect_calls_block(body, out);
        },
        Expr::For { iterable, body, .. } => {
            collect_calls_expr(iterable, out);
            collect_calls_block(body, out);
        },
        Expr::Do { body, .. } => collect_calls_block(body, out),
        Expr::Unsafe(body, _, _) => collect_calls_block(body, out),
        Expr::Closure { body, .. } => collect_calls_block(body, out),
        _ => {},
    }
    assert(out@ =~= start + expr_calls(*expr));
}

/// Adds to `out` the names called in the expressions of `es`.
fn collect_calls_exprs(es: &Vec<Expr>, out: &mut NameSet)
    requires
        old(out).wf(),
    ensures
        final(out).wf(),
        final(out)@ == old(out)@ + exprs_calls(es@, es@.len()),
    decreases es@, es@.len(),
{
    let ghost start = out@;
    let mut i: usize = 0;
    while i < es.len()
        invariant
            i <= es@.len(),
            out.wf(),
            out@ == start + exprs_calls(es@, i as nat),
        decreases es@.len() - i,
    {
        collect_calls_expr(&es[i], out);
        i = i + 1;
        assert(out@ =~= start + exprs_calls(es@, i as nat));
    }
}

/// Adds to `out` the names called in the statements of `body`.
pub fn collect_calls_block(body: &Vec<Stmt>, out: &mut NameSet)
    requires
        old(out).wf(),
    ensures
        final(out).wf(),
        final(out)@ == old(out)@ + body_calls(body@),
    decreases body@, body@.len(),
{
    let ghost start = out@;
    let mut i: usize = 0;
    while i < body.len()
        invariant
            i <= body@.len(),
            out.wf(),
            out@ == start + stmts_calls(body@, i as nat),
        decreases body@.len() - i,
    {
        collect_calls_stmt(&body[i], out);
        i = i + 1;
        assert(out@ =~= start + stmts_calls(body@, i as nat));
    }
}

/// Adds to `out` the names called in `stmt`, nested functions included.
pub fn collect_calls_stmt(stmt: &Stmt, out: &mut NameSet)
    requires
        old(out).wf(),
    ensures
        final(out).wf(),
        final(out)@ == old(out)@ + stmt_calls(*stmt),
    decreases *stmt, 0nat,
{
    let ghost start = out@;
    match stmt {
        Stmt::Let { value: Some(e), .. } => collect_calls_expr(e, out),
        Stmt::Expr(e, _) => collect_calls_expr(e, out),
        Stmt::Return(Some(e), _) => collect_calls_expr(e, out),
        Stmt::Break(Some(e), _) => collect_calls_expr(e, out),
        Stmt::Item(Item::FnDef(f)) => collect_calls_block(&f.body, out),
        Stmt::Item(Item::ModDecl { inline: Some(inner), .. }) => {
            let mut i: usize = 0;
            while i < inner.len()
                invariant
                    i <= inner@.len(),
                    out.wf(),
                    out@ == start + items_calls(inner@, i as nat),
                    decreases_to!(*stmt => inner@),
                decreases inner@.len() - i,
            {
                if let Item::FnDef(f) = &inner[i] {
                    collect_calls_block(&f.body, out);
                }
                i = i + 1;
                assert(out@ =~= start + items_calls(inner@, i as nat));
            }
        },
        _ => {},
    }
    assert(out@ =~= start + stmt_calls(*stmt));
}

} // verus!
