//! What holds of expression inference as a whole.

use vstd::prelude::*;

use crate::ast::{Expr, MatchArm, Param, Span, Stmt};
use crate::checker::{Checker, Report};
use crate::htype::Ty;
use crate::infer;
use crate::infer::Meaning;
use crate::text;

verus! {

/// Whether the checks of statements and of `match` arms drop no diagnostic.
pub open spec fn only_reports(m: Meaning) -> bool {
    &&& forall|st: Checker, stmt: Stmt|
        st.diagnostics.is_prefix_of((#[trigger] (m.stmt)(st, stmt)).0.diagnostics)
    &&& forall|st: Checker, subject: Ty, arms: Seq<MatchArm>, span: Span|
        st.diagnostics.is_prefix_of(
            (#[trigger] (m.exhaustive)(st, subject, arms, span)).diagnostics,
        )
}

proof fn lemma_prefix_of_prefix(a: Seq<Report>, b: Seq<Report>, c: Seq<Report>)
    requires
        a.is_prefix_of(b),
        b.is_prefix_of(c),
    ensures
        a.is_prefix_of(c),
{
    assert(a =~= c.subrange(0, a.len() as int)) by {
        assert forall|i: int| 0 <= i < a.len() implies a[i] == c[i] by {
            assert(a[i] == b.subrange(0, a.len() as int)[i]);
            assert(b[i] == c.subrange(0, b.len() as int)[i]);
        }
    }
}

proof fn lemma_block_retains(m: Meaning, st: Checker, body: Seq<Stmt>, n: nat)
    requires
        only_reports(m),
    ensures
        st.diagnostics.is_prefix_of(infer::block(m, st, body, n).0.diagnostics),
    decreases n,
{
    if n == 0 || n > body.len() {
    } else {
        let before = infer::block(m, st, body, (n - 1) as nat).0;
        lemma_block_retains(m, st, body, (n - 1) as nat);
        assert(before.diagnostics.is_prefix_of((m.stmt)(before, body[n - 1]).0.diagnostics));
        lemma_prefix_of_prefix(
            st.diagnostics,
            before.diagnostics,
            infer::block(m, st, body, n).0.diagnostics,
        );
    }
}

proof fn lemma_all_retain(m: Meaning, st: Checker, es: Seq<Expr>, n: nat)
    requires
        only_reports(m),
    ensures
        st.diagnostics.is_prefix_of(infer::infer_all(m, st, es, n).0.diagnostics),
    decreases es, n,
{
    if n == 0 || n > es.len() {
    } else {
        let before = infer::infer_all(m, st, es, (n - 1) as nat).0;
        lemma_all_retain(m, st, es, (n - 1) as nat);
        law_diagnostics_are_retained(m, before, es[n - 1]);
        lemma_prefix_of_prefix(
            st.diagnostics,
            before.diagnostics,
            infer::infer_all(m, st, es, n).0.diagnostics,
        );
    }
}

proof fn lemma_branches_retain(
    m: Meaning,
    st: Checker,
    branches: Seq<(Expr, Vec<Stmt>)>,
    n: nat,
)
    requires
        only_reports(m),
    ensures
        st.diagnostics.is_prefix_of(infer::check_branches(m, st, branches, n).diagnostics),
    decreases branches, n,
{
    if n == 0 || n > branches.len() {
    } else {
        let before = infer::check_branches(m, st, branches, (n - 1) as nat);
        lemma_branches_retain(m, st, branches, (n - 1) as nat);
        let c = infer::infer(m, before, branches[n - 1].0).0;
        law_diagnostics_are_retained(m, before, branches[n - 1].0);
        lemma_block_retains(m, c, branches[n - 1].1@, branches[n - 1].1@.len());
        let after = infer::check_branches(m, st, branches, n);
        lemma_prefix_of_prefix(before.diagnostics, c.diagnostics, after.diagnostics);
        lemma_prefix_of_prefix(st.diagnostics, before.diagnostics, after.diagnostics);
    }
}

proof fn lemma_arms_retain(m: Meaning, st: Checker, arms: Seq<MatchArm>, n: nat)
    requires
        only_reports(m),
    ensures
        st.diagnostics.is_prefix_of(infer::check_arms(m, st, arms, n).0.diagnostics),
    decreases arms, n,
{
    if n == 0 || n > arms.len() {
    } else {
        let before = infer::check_arms(m, st, arms, (n - 1) as nat).0;
        lemma_arms_retain(m, st, arms, (n - 1) as nat);
        let arm = arms[n - 1];
        let guarded = match arm.guard {
            Some(g) => infer::infer(m, before, g).0,
            None => before,
        };
        match arm.guard {
            Some(g) => {
                law_diagnostics_are_retained(m, before, g);
            },
            None => {},
        }
        lemma_block_retains(m, guarded, arm.body@, arm.body@.len());
        let after = infer::check_arms(m, st, arms, n).0;
        lemma_prefix_of_prefix(before.diagnostics, guarded.diagnostics, after.diagnostics);
        lemma_prefix_of_prefix(st.diagnostics, before.diagnostics, after.diagnostics);
    }
}

/// Inference drops no diagnostic: those that were there stay, in order, before what it reports.
pub proof fn law_diagnostics_are_retained(m: Meaning, st: Checker, e: Expr)
    requires
        only_reports(m),
    ensures
        st.diagnostics.is_prefix_of(infer::infer(m, st, e).0.diagnostics),
    decreases e, 0nat,
{
    let after = infer::infer(m, st, e).0;
    match e {
        Expr::BinOp(lhs, _, rhs, _) => {
            let l = infer::infer(m, st, *lhs).0;
            law_diagnostics_are_retained(m, st, *lhs);
            law_diagnostics_are_retained(m, l, *rhs);
            lemma_prefix_of_prefix(st.diagnostics, l.diagnostics, after.diagnostics);
        },
        Expr::UnOp(_, inner, _) => law_diagnostics_are_retained(m, st, *inner),
        Expr::FieldAccess(base, _, _) => law_diagnostics_are_retained(m, st, *base),
        Expr::IndexAccess(array, _, _) => law_diagnostics_are_retained(m, st, *array),
        Expr::ArrayLit(elems, _) => {
            if elems@.len() > 0 {
                law_diagnostics_are_retained(m, st, elems@[0]);
            }
        },
        Expr::TupleLit(elems, _) => lemma_all_retain(m, st, elems@, elems@.len()),
        Expr::If { condition, then_body, elsif_branches, else_body, .. } => {
            let c = infer::infer(m, st, *condition).0;
            let value = infer::block(m, c, then_body@, then_body@.len()).0;
            let others = infer::check_branches(m, value, elsif_branches@, elsif_branches@.len());
            law_diagnostics_are_retained(m, st, *condition);
            lemma_block_retains(m, c, then_body@, then_body@.len());
            lemma_branches_retain(m, value, elsif_branches@, elsif_branches@.len());
            lemma_prefix_of_prefix(st.diagnostics, c.diagnostics, value.diagnostics);
            lemma_prefix_of_prefix(st.diagnostics, value.diagnostics, others.diagnostics);
            match else_body {
                Some(body) => {
                    lemma_block_retains(m, others, body@, body@.len());
                    lemma_prefix_of_prefix(st.diagnostics, others.diagnostics, after.diagnostics);
                },
                None => {},
            }
        },
        Expr::Cast(inner, _, _) => law_diagnostics_are_retained(m, st, *inner),
        Expr::Try(inner, _) => law_diagnostics_are_retained(m, st, *inner),
        Expr::Assign(_, rhs, _) => law_diagnostics_are_retained(m, st, *rhs),
        Expr::CompoundAssign(lhs, _, _, _) => law_diagnostics_are_retained(m, st, *lhs),
        Expr::Closure { return_type, body, .. } => {
            if return_type is None && body@.len() > 0 {
                match body@[body@.len() - 1] {
                    Stmt::Expr(value, _) => law_diagnostics_are_retained(m, st, value),
                    _ => {},
                }
            }
        },
        Expr::Match { subject, arms, span } => {
            let s = infer::infer(m, st, *subject);
            let checked = (m.exhaustive)(s.0, s.1, arms@, span);
            law_diagnostics_are_retained(m, st, *subject);
            lemma_arms_retain(m, checked, arms@, arms@.len());
            lemma_prefix_of_prefix(st.diagnostics, s.0.diagnostics, checked.diagnostics);
            lemma_prefix_of_prefix(st.diagnostics, checked.diagnostics, after.diagnostics);
        },
        Expr::While { condition, body, .. } => {
            let c = infer::infer(m, st, *condition).0;
            law_diagnostics_are_retained(m, st, *condition);
            lemma_block_retains(m, c, body@, body@.len());
            lemma_prefix_of_prefix(st.diagnostics, c.diagnostics, after.diagnostics);
        },
        Expr::For { iterable, body, .. } => {
            let c = infer::infer(m, st, *iterable).0;
            law_diagnostics_are_retained(m, st, *iterable);
            lemma_block_retains(m, c, body@, body@.len());
            lemma_prefix_of_prefix(st.diagnostics, c.diagnostics, after.diagnostics);
        },
        Expr::Do { body, .. } => lemma_block_retains(m, st, body@, body@.len()),
        _ => {},
    }
}

/// Whether `after` differs from `before` in the diagnostics alone.
pub open spec fn differ_in_diagnostics(before: Checker, after: Checker) -> bool {
    after == (Checker { diagnostics: after.diagnostics, ..before })
}

proof fn lemma_all_self_contained(m: Meaning, st: Checker, es: Seq<Expr>, n: nat)
    requires
        infer::all_self_contained(es, n),
    ensures
        infer::infer_all(m, st, es, n) == infer::infer_all(infer::silent(), st, es, n),
        differ_in_diagnostics(st, infer::infer_all(m, st, es, n).0),
    decreases es, n,
{
    if n == 0 || n > es.len() {
    } else {
        lemma_all_self_contained(m, st, es, (n - 1) as nat);
        law_self_contained_inference(
            m,
            infer::infer_all(m, st, es, (n - 1) as nat).0,
            es[n - 1],
        );
    }
}

/// An expression without statements, casts and `match` has a type that depends on the checker
/// alone, and inferring it changes nothing but the diagnostics.
pub proof fn law_self_contained_inference(m: Meaning, st: Checker, e: Expr)
    requires
        infer::self_contained(e),
    ensures
        infer::infer(m, st, e) == infer::infer(infer::silent(), st, e),
        differ_in_diagnostics(st, infer::infer(m, st, e).0),
    decreases e, 0nat,
{
    match e {
        Expr::BinOp(lhs, _, rhs, _) => {
            law_self_contained_inference(m, st, *lhs);
            law_self_contained_inference(m, infer::infer(m, st, *lhs).0, *rhs);
        },
        Expr::UnOp(_, inner, _) => law_self_contained_inference(m, st, *inner),
        Expr::FieldAccess(base, _, _) => law_self_contained_inference(m, st, *base),
        Expr::IndexAccess(array, _, _) => law_self_contained_inference(m, st, *array),
        Expr::ArrayLit(elems, _) => {
            if elems@.len() > 0 {
                law_self_contained_inference(m, st, elems@[0]);
            }
        },
        Expr::TupleLit(elems, _) => lemma_all_self_contained(m, st, elems@, elems@.len()),
        Expr::If { condition, elsif_branches, .. } => {
            law_self_contained_inference(m, st, *condition);
            let c = infer::infer(m, st, *condition).0;
            assert(infer::check_branches(m, c, elsif_branches@, 0) == c);
            assert(infer::check_branches(infer::silent(), c, elsif_branches@, 0) == c);
        },
        Expr::Try(inner, _) => law_self_contained_inference(m, st, *inner),
        Expr::Assign(_, rhs, _) => law_self_contained_inference(m, st, *rhs),
        Expr::CompoundAssign(lhs, _, _, _) => law_self_contained_inference(m, st, *lhs),
        Expr::Closure { params, body, .. } => {
            assert(params@.map_values(|p: Param| (m.lower)(p.ty))
                =~= params@.map_values(
                |p: Param| (infer::silent().lower)(p.ty),
            ));
            if body@.len() > 0 {
                match body@[body@.len() - 1] {
                    Stmt::Expr(value, _) => law_self_contained_inference(m, st, value),
                    _ => {},
                }
            }
        },
        Expr::While { condition, .. } => law_self_contained_inference(m, st, *condition),
        Expr::For { iterable, .. } => law_self_contained_inference(m, st, *iterable),
        _ => {},
    }
}

/// A field access through a reference is the access on the struct itself.
pub proof fn law_references_are_transparent(
    st: Checker,
    name: Seq<char>,
    field: Seq<char>,
    span: Span,
)
    ensures
        infer::access(st, Ty::Ref(Box::new(Ty::Named(name))), field, span) == infer::access(
            st,
            Ty::Named(name),
            field,
            span,
        ),
        infer::access(st, Ty::RefMut(Box::new(Ty::Named(name))), field, span) == infer::access(
            st,
            Ty::Named(name),
            field,
            span,
        ),
{
}

/// The field `.i` of a tuple has the type of its element `i`, and there is nothing to report.
pub proof fn law_tuple_fields(st: Checker, elems: Seq<Ty>, i: usize, span: Span)
    requires
        i < elems.len(),
    ensures
        infer::access(st, Ty::Tuple(elems), text::decimal_text(i as nat), span) == (
            st,
            elems[i as int],
        ),
{
    text::law_index_round_trip(i);
}

/// The types of the elements of a tuple literal are those of the expressions, each inferred after
/// the ones before it.
pub proof fn law_tuple_elements(m: Meaning, st: Checker, es: Seq<Expr>, n: nat, i: int)
    requires
        0 <= i < n <= es.len(),
    ensures
        infer::infer_all(m, st, es, n).1.len() == n,
        infer::infer_all(m, st, es, n).1[i] == infer::infer(
            m,
            infer::infer_all(m, st, es, i as nat).0,
            es[i],
        ).1,
    decreases n,
{
    if i < n - 1 {
        law_tuple_elements(m, st, es, (n - 1) as nat, i);
    } else if n > 1 {
        law_tuple_elements(m, st, es, (n - 1) as nat, n - 2);
    } else {
        assert(infer::infer_all(m, st, es, 0).1.len() == 0);
    }
}

/// A declared field of a struct literal has its declared type, and there is nothing to report.
pub proof fn law_struct_literal_fields(
    m: Meaning,
    st: Checker,
    base: Box<Expr>,
    field: String,
    span: Span,
    ty: Ty,
)
    requires
        *base is StructLit,
        st.structs.contains_key((*base)->StructLit_0@),
        ({
            let fields = st.structs[(*base)->StructLit_0@];
            infer::field_ty(fields, fields.len(), field@) == Some(ty)
        }),
    ensures
        infer::infer(m, st, Expr::FieldAccess(base, field, span)) == (st, ty),
{
    reveal_with_fuel(infer::infer, 2);
}

/// Names and calls are never reported, known or not.
pub proof fn law_names_are_not_reported(m: Meaning, st: Checker, e: Expr)
    requires
        e is Ident || e is Path || e is Call || e is MethodCall || e is StructLit,
    ensures
        infer::infer(m, st, e).0 == st,
{
}

/// The value of a block is that of its last statement; without statements it has none.
pub proof fn law_block_value(m: Meaning, st: Checker, body: Seq<Stmt>)
    ensures
        body.len() == 0 ==> infer::block(m, st, body, body.len()) == (st, Ty::Void),
        body.len() > 0 ==> infer::block(m, st, body, body.len()) == (m.stmt)(
            infer::block(m, st, body, (body.len() - 1) as nat).0,
            body.last(),
        ),
{
}

/// What stands behind the first `n` statements does not change what checking them does.
proof fn lemma_block_of_prefix(m: Meaning, st: Checker, a: Seq<Stmt>, b: Seq<Stmt>, n: nat)
    requires
        n <= a.len(),
    ensures
        infer::block(m, st, a + b, n) == infer::block(m, st, a, n),
    decreases n,
{
    if n > 0 {
        lemma_block_of_prefix(m, st, a, b, (n - 1) as nat);
        assert((a + b)[n - 1] == a[n - 1]);
    }
}

proof fn lemma_block_of_concat(m: Meaning, st: Checker, a: Seq<Stmt>, b: Seq<Stmt>, n: nat)
    requires
        0 < n <= b.len(),
    ensures
        infer::block(m, st, a + b, a.len() + n) == infer::block(
            m,
            infer::block(m, st, a, a.len()).0,
            b,
            n,
        ),
    decreases n,
{
    let middle = infer::block(m, st, a, a.len()).0;
    assert((a + b)[a.len() + n - 1] == b[n - 1]);
    if n == 1 {
        lemma_block_of_prefix(m, st, a, b, a.len());
        assert(infer::block(m, middle, b, 0).0 == middle);
    } else {
        lemma_block_of_concat(m, st, a, b, (n - 1) as nat);
    }
}

/// Checking a block is checking its first part and then the rest: the value is that of the rest, or
/// of the first part where nothing is left.
pub proof fn law_blocks_compose(m: Meaning, st: Checker, a: Seq<Stmt>, b: Seq<Stmt>)
    ensures
        b.len() > 0 ==> infer::block(m, st, a + b, (a + b).len()) == infer::block(
            m,
            infer::block(m, st, a, a.len()).0,
            b,
            b.len(),
        ),
        b.len() == 0 ==> infer::block(m, st, a + b, (a + b).len()) == infer::block(
            m,
            st,
            a,
            a.len(),
        ),
{
    if b.len() > 0 {
        lemma_block_of_concat(m, st, a, b, b.len());
    } else {
        lemma_block_of_prefix(m, st, a, b, a.len());
    }
}

/// Loops and `do` blocks check their bodies and have no value.
pub proof fn law_loops_have_no_value(m: Meaning, st: Checker, e: Expr)
    requires
        e is While || e is For || e is Do,
    ensures
        infer::infer(m, st, e).1 == Ty::Void,
        e matches Expr::Do { body, .. } ==> infer::infer(m, st, e).0 == infer::block(
            m,
            st,
            body@,
            body@.len(),
        ).0,
{
}

/// A closure is a function with as many parameters as it declares.
pub proof fn law_closures_are_functions(m: Meaning, st: Checker, e: Expr)
    requires
        e is Closure,
    ensures
        infer::infer(m, st, e).1 matches Ty::Fn(params, _) && params.len()
            == e->Closure_params@.len(),
{
}

} // verus!
