//! What the type of each form of expression is, in terms of the types of its parts.

use vstd::prelude::*;

use crate::ast::{BinOp, Expr, Literal, MatchArm, Param, Span, Stmt, TypeExpr, UnOp};
use crate::checker::{Checker, Report, Var};
use crate::htype;
use crate::htype::Ty;
use crate::infer;
use crate::infer::Meaning;
use crate::text;
use crate::typing_laws;

verus! {

/// Exactly the integers and the floats are numbers.
pub proof fn law_numbers_are_integers_and_floats(t: Ty)
    ensures
        t is Int || t is I8 || t is I16 || t is I32 || t is I64 || t is I128 ==> htype::is_numeric(t),
        t is U8 || t is U16 || t is U32 || t is U64 || t is U128 ==> htype::is_numeric(t),
        t is F32 || t is F64 ==> htype::is_numeric(t),
        t is Void || t is Any || t is Bool || t is Str || t is Bytes || t is Named
            ==> !htype::is_numeric(t),
        t is Array || t is Optional || t is Ref || t is RefMut || t is Tuple || t is Fn
            ==> !htype::is_numeric(t),
{
}

/// A variable is that of the innermost scope which has its name.
pub proof fn law_lookup_finds_the_innermost(st: Checker, name: Seq<char>)
    ensures
        st.var(name) is None <==> forall|i: int|
            0 <= i < st.scopes.len() ==> !(#[trigger] st.scopes[i]).contains_key(name),
        st.var(name) matches Some(v) ==> exists|i: int|
            {
                &&& 0 <= i < st.scopes.len()
                &&& (#[trigger] st.scopes[i]).contains_key(name)
                &&& st.scopes[i][name] == v
                &&& forall|k: int|
                    i < k < st.scopes.len() ==> !(#[trigger] st.scopes[k]).contains_key(name)
            },
{
    lemma_lookup(st.scopes, st.scopes.len(), name);
}

proof fn lemma_lookup(scopes: Seq<Map<Seq<char>, Var>>, n: nat, name: Seq<char>)
    requires
        n <= scopes.len(),
    ensures
        ({
            let found = crate::checker::looked_up(scopes, n, name);
            &&& found is None <==> forall|i: int|
                0 <= i < n ==> !(#[trigger] scopes[i]).contains_key(name)
            &&& found matches Some(v) ==> exists|i: int|
                {
                    &&& 0 <= i < n
                    &&& (#[trigger] scopes[i]).contains_key(name)
                    &&& scopes[i][name] == v
                    &&& forall|k: int| i < k < n ==> !(#[trigger] scopes[k]).contains_key(name)
                }
        }),
    decreases n,
{
    if n > 0 {
        lemma_lookup(scopes, (n - 1) as nat, name);
        if scopes[n - 1].contains_key(name) {
            assert(scopes[n - 1][name] == crate::checker::looked_up(scopes, n, name)->0);
        } else if let Some(v) = crate::checker::looked_up(scopes, n, name) {
            let i = choose|i: int|
                {
                    &&& 0 <= i < n - 1
                    &&& (#[trigger] scopes[i]).contains_key(name)
                    &&& scopes[i][name] == v
                    &&& forall|k: int| i < k < n - 1 ==> !(#[trigger] scopes[k]).contains_key(name)
                };
            assert(scopes[i].contains_key(name));
        }
    }
}

/// A report is added behind the others, as it was given, and changes nothing else.
pub proof fn law_reports_are_added(st: Checker, span: Span, message: Seq<char>, hint: Seq<char>)
    ensures
        st.reported(span, message, hint).diagnostics == st.diagnostics.push(
            Report { span, message, hint },
        ),
        typing_laws::differ_in_diagnostics(st, st.reported(span, message, hint)),
{
}

/// The type of a literal is that of its kind, and nothing is reported.
pub proof fn law_literals(m: Meaning, st: Checker, lit: Literal, span: Span)
    ensures
        infer::infer(m, st, Expr::Literal(lit, span)).0 == st,
        lit is Int ==> infer::infer(m, st, Expr::Literal(lit, span)).1 == Ty::Int,
        lit is Float ==> infer::infer(m, st, Expr::Literal(lit, span)).1 == Ty::F64,
        lit is String ==> infer::infer(m, st, Expr::Literal(lit, span)).1 == Ty::Str,
        lit is Interpolated ==> infer::infer(m, st, Expr::Literal(lit, span)).1 == Ty::Str,
        lit is Bool ==> infer::infer(m, st, Expr::Literal(lit, span)).1 == Ty::Bool,
        lit is Bytes ==> infer::infer(m, st, Expr::Literal(lit, span)).1 == Ty::Bytes,
        lit is Nil ==> infer::infer(m, st, Expr::Literal(lit, span)).1 == Ty::Optional(
            Box::new(Ty::Any),
        ),
{
}

/// An identifier has the type of its variable, else of its constant, else none that is known; what
/// the parser put in has none in any case.
pub proof fn law_identifiers(m: Meaning, st: Checker, name: String, span: Span)
    ensures
        ({
            let t = infer::infer(m, st, Expr::Ident(name, span));
            let synthetic = "__bind:"@.is_prefix_of(name@) || "__closure_"@.is_prefix_of(name@);
            &&& t.0 == st
            &&& synthetic ==> t.1 == Ty::Any
            &&& !synthetic ==> (st.var(name@) matches Some(v) ==> t.1 == v.ty)
            &&& !synthetic && st.var(name@) is None && st.consts.contains_key(name@) ==> t.1
                == st.consts[name@]
            &&& st.var(name@) is None && !st.consts.contains_key(name@) ==> t.1 == Ty::Any
        }),
{
}

/// A variable that was just defined has its declared type.
pub proof fn law_defined_variables_have_their_type(
    m: Meaning,
    st: Checker,
    name: String,
    ty: Ty,
    mutable: bool,
    span: Span,
)
    requires
        st.scopes.len() > 0,
        !"__bind:"@.is_prefix_of(name@),
        !"__closure_"@.is_prefix_of(name@),
    ensures
        infer::infer(m, st.defined(name@, ty, mutable), Expr::Ident(name, span)).1 == ty,
{
    crate::checker::law_definition_is_found(st, name@, ty, mutable, name@);
}

/// The operands of a binary operation are inferred from left to right. A comparison or a logical
/// operation is a truth value; an addition with a string on either side is a string; any other
/// operation on numbers has the type on the left; all else is unknown.
pub proof fn law_binary_operations(
    m: Meaning,
    st: Checker,
    lhs: Box<Expr>,
    op: BinOp,
    rhs: Box<Expr>,
    span: Span,
)
    ensures
        ({
            let l = infer::infer(m, st, *lhs);
            let r = infer::infer(m, l.0, *rhs);
            let t = infer::infer(m, st, Expr::BinOp(lhs, op, rhs, span));
            let truth = op == BinOp::Eq || op == BinOp::NotEq || op == BinOp::Lt || op == BinOp::Gt
                || op == BinOp::LtEq || op == BinOp::GtEq || op == BinOp::And || op == BinOp::Or;
            let text = op == BinOp::Add && (l.1 == Ty::Str || r.1 == Ty::Str);
            let numbers = htype::is_numeric(l.1) && htype::is_numeric(r.1);
            &&& t.0 == r.0
            &&& truth ==> t.1 == Ty::Bool
            &&& text ==> t.1 == Ty::Str
            &&& !truth && numbers ==> t.1 == l.1
            &&& !truth && !text && !numbers ==> t.1 == Ty::Any
        }),
{
}

/// A negation, a dereference and a complement have the type of their operand, whatever it is; `!` is
/// a truth value; `&` and `&mut` refer to the type of their operand. Inferring one does what
/// inferring its operand does.
pub proof fn law_unary_operations(
    m: Meaning,
    st: Checker,
    op: UnOp,
    inner: Box<Expr>,
    span: Span,
)
    ensures
        ({
            let operand = infer::infer(m, st, *inner);
            let t = infer::infer(m, st, Expr::UnOp(op, inner, span));
            &&& t.0 == operand.0
            &&& op == UnOp::Neg ==> t.1 == operand.1
            &&& op == UnOp::Deref ==> t.1 == operand.1
            &&& op == UnOp::BitNot ==> t.1 == operand.1
            &&& op == UnOp::Not ==> t.1 == Ty::Bool
            &&& op == UnOp::Ref ==> t.1 == Ty::Ref(Box::new(operand.1))
            &&& op == UnOp::RefMut ==> t.1 == Ty::RefMut(Box::new(operand.1))
        }),
{
}

/// A call by name has the declared result of the function, and is of unknown type where there is
/// none. The arguments are left alone.
pub proof fn law_calls_by_name(
    m: Meaning,
    st: Checker,
    callee: Box<Expr>,
    args: Vec<Expr>,
    span: Span,
)
    ensures
        ({
            let t = infer::infer(m, st, Expr::Call(callee, args, span));
            &&& t.0 == st
            &&& *callee matches Expr::Ident(name, _) ==> (st.fns.contains_key(name@) ==> t.1
                == st.fns[name@]) && (!st.fns.contains_key(name@) ==> t.1 == Ty::Any)
            &&& !(*callee is Ident) && !(*callee is Path) ==> t.1 == Ty::Any
        }),
{
}

/// A call by path has the result of the first of these that is declared: the path as it is written,
/// its segments joined by `_`, its last segment.
pub proof fn law_calls_by_path(
    m: Meaning,
    st: Checker,
    callee: Box<Expr>,
    args: Vec<Expr>,
    span: Span,
)
    requires
        *callee is Path,
    ensures
        ({
            let segments = text::texts((*callee)->Path_0@);
            let full = text::joined(segments, "::"@);
            let snake = text::joined(segments, "_"@);
            let t = infer::infer(m, st, Expr::Call(callee, args, span)).1;
            let by_last = segments.len() > 0 && st.fns.contains_key(segments.last());
            &&& st.fns.contains_key(full) ==> t == st.fns[full]
            &&& !st.fns.contains_key(full) && st.fns.contains_key(snake) ==> t == st.fns[snake]
            &&& !st.fns.contains_key(full) && !st.fns.contains_key(snake) && by_last ==> t
                == st.fns[segments.last()]
            &&& !st.fns.contains_key(full) && !st.fns.contains_key(snake) && !by_last ==> t
                == Ty::Any
        }),
{
    let segments = (*callee)->Path_0@;
    if segments.len() > 0 {
        assert(text::texts(segments).last() == segments.last()@);
    }
}

/// A field has the type of the first declared field of its name, and none where there is none.
pub proof fn law_first_field_counts(fields: Seq<(Seq<char>, Ty)>, n: nat, name: Seq<char>)
    requires
        n <= fields.len(),
    ensures
        infer::field_ty(fields, n, name) is None <==> forall|i: int|
            0 <= i < n ==> (#[trigger] fields[i]).0 != name,
        infer::field_ty(fields, n, name) matches Some(t) ==> exists|i: int|
            {
                &&& 0 <= i < n
                &&& (#[trigger] fields[i]).0 == name
                &&& fields[i].1 == t
                &&& forall|k: int| 0 <= k < i ==> (#[trigger] fields[k]).0 != name
            },
    decreases n,
{
    if n > 0 {
        law_first_field_counts(fields, (n - 1) as nat, name);
        match infer::field_ty(fields, (n - 1) as nat, name) {
            Some(t) => {
                let i = choose|i: int|
                    {
                        &&& 0 <= i < n - 1
                        &&& (#[trigger] fields[i]).0 == name
                        &&& fields[i].1 == t
                        &&& forall|k: int| 0 <= k < i ==> (#[trigger] fields[k]).0 != name
                    };
                assert(fields[i].0 == name);
            },
            None => {
                if fields[n - 1].0 == name {
                    assert(fields[n - 1].1 == infer::field_ty(fields, n, name)->0);
                }
            },
        }
    }
}

/// Inferring a field access does what inferring its base does, and then looks the field up in the
/// type of the base.
pub proof fn law_field_access_follows_its_base(
    m: Meaning,
    st: Checker,
    base: Box<Expr>,
    field: String,
    span: Span,
)
    ensures
        infer::infer(m, st, Expr::FieldAccess(base, field, span)) == infer::access(
            infer::infer(m, st, *base).0,
            infer::infer(m, st, *base).1,
            field@,
            span,
        ),
{
}

/// The field at place `i` of a known struct, the first of its name, has its declared type, and there
/// is nothing to report.
pub proof fn law_declared_fields(st: Checker, name: Seq<char>, i: int, span: Span)
    requires
        st.structs.contains_key(name),
        0 <= i < st.structs[name].len(),
        forall|k: int|
            0 <= k < i ==> (#[trigger] st.structs[name][k]).0 != st.structs[name][i].0,
    ensures
        infer::access(st, Ty::Named(name), st.structs[name][i].0, span) == (
            st,
            st.structs[name][i].1,
        ),
{
    let fields = st.structs[name];
    law_first_field_counts(fields, fields.len(), fields[i].0);
    assert(fields[i].0 == fields[i].0);
    let t = infer::field_ty(fields, fields.len(), fields[i].0);
    assert(t is Some);
    let j = choose|j: int|
        {
            &&& 0 <= j < fields.len()
            &&& (#[trigger] fields[j]).0 == fields[i].0
            &&& fields[j].1 == t->0
            &&& forall|k: int| 0 <= k < j ==> (#[trigger] fields[k]).0 != fields[i].0
        };
    assert(i == j) by {
        if i < j {
            assert(fields[i].0 != fields[i].0);
        }
    }
}

/// A field that a known struct does not have is reported once, with the fields that it has, and is
/// of unknown type.
pub proof fn law_undeclared_fields_are_reported(
    st: Checker,
    name: Seq<char>,
    field: Seq<char>,
    span: Span,
)
    requires
        st.structs.contains_key(name),
        forall|i: int|
            0 <= i < st.structs[name].len() ==> (#[trigger] st.structs[name][i]).0 != field,
    ensures
        ({
            let fields = st.structs[name];
            let r = infer::access(st, Ty::Named(name), field, span);
            let report = r.0.diagnostics.last();
            &&& r.1 == Ty::Any
            &&& typing_laws::differ_in_diagnostics(st, r.0)
            &&& r.0.diagnostics == st.diagnostics.push(report)
            &&& report.span == span
            &&& report.message == "struct `"@ + name + "` has no field `"@ + field + "`"@
            &&& fields.len() == 0 ==> report.hint == "`"@ + name + "` has no fields"@
            &&& fields.len() > 0 ==> report.hint == "available fields: "@ + text::joined(
                Seq::new(fields.len(), |i: int| fields[i].0),
                ", "@,
            )
        }),
{
    let fields = st.structs[name];
    law_first_field_counts(fields, fields.len(), field);
    assert(Seq::new(fields.len(), |i: int| fields[i].0) =~= fields.map_values(
        |f: (Seq<char>, Ty)| f.0,
    ));
}

/// A field that a tuple does not have is reported once, and is of unknown type.
pub proof fn law_tuples_have_no_other_fields(
    st: Checker,
    elems: Seq<Ty>,
    field: Seq<char>,
    span: Span,
)
    requires
        text::index_of_text(field) matches Some(i) ==> i >= elems.len(),
    ensures
        ({
            let r = infer::access(st, Ty::Tuple(elems), field, span);
            let report = r.0.diagnostics.last();
            &&& r.1 == Ty::Any
            &&& typing_laws::differ_in_diagnostics(st, r.0)
            &&& r.0.diagnostics == st.diagnostics.push(report)
            &&& report.span == span
            &&& report.message == "tuple of "@ + text::decimal_text(elems.len())
                + " element(s) has no field `."@ + field + "`"@
            &&& report.hint
                == "tuple fields are accessed positionally as `.0`, `.1`, ... up to (len - 1)"@
        }),
{
}

/// A field of anything but a tuple and a known struct, seen through no more than one reference, is
/// of unknown type, and nothing is reported.
pub proof fn law_other_types_have_unknown_fields(
    st: Checker,
    base: Ty,
    field: Seq<char>,
    span: Span,
)
    requires
        !(base is Tuple),
        base matches Ty::Named(name) ==> !st.structs.contains_key(name),
        base matches Ty::Ref(inner) ==> (*inner matches Ty::Named(name)
            ==> !st.structs.contains_key(name)),
        base matches Ty::RefMut(inner) ==> (*inner matches Ty::Named(name)
            ==> !st.structs.contains_key(name)),
    ensures
        infer::access(st, base, field, span) == (st, Ty::Any),
{
}

/// Indexing an array gives an element, and anything else is unknown. The index is left alone.
pub proof fn law_indexing(m: Meaning, st: Checker, array: Box<Expr>, index: Box<Expr>, span: Span)
    ensures
        ({
            let a = infer::infer(m, st, *array);
            let t = infer::infer(m, st, Expr::IndexAccess(array, index, span));
            &&& t.0 == a.0
            &&& a.1 matches Ty::Array(elem) ==> t.1 == *elem
            &&& !(a.1 is Array) ==> t.1 == Ty::Any
        }),
{
}

/// An array literal is an array of the type of its first element, the only one that is inferred.
pub proof fn law_array_literals(m: Meaning, st: Checker, elems: Vec<Expr>, span: Span)
    ensures
        ({
            let t = infer::infer(m, st, Expr::ArrayLit(elems, span));
            &&& elems@.len() == 0 ==> t == (st, Ty::Array(Box::new(Ty::Any)))
            &&& elems@.len() > 0 ==> t.0 == infer::infer(m, st, elems@[0]).0 && t.1 == Ty::Array(
                Box::new(infer::infer(m, st, elems@[0]).1),
            )
        }),
{
}

/// A tuple literal has an element type for each of its expressions, and inferring it is inferring
/// them in order.
pub proof fn law_tuple_literals(m: Meaning, st: Checker, elems: Vec<Expr>, span: Span, i: int)
    requires
        0 <= i < elems@.len(),
    ensures
        ({
            let t = infer::infer(m, st, Expr::TupleLit(elems, span));
            let last = elems@.len() - 1;
            &&& t.1 matches Ty::Tuple(tys) && tys.len() == elems@.len() && tys[i] == infer::infer(
                m,
                infer::infer_all(m, st, elems@, i as nat).0,
                elems@[i],
            ).1
            &&& t.0 == infer::infer(
                m,
                infer::infer_all(m, st, elems@, last as nat).0,
                elems@[last],
            ).0
        }),
{
    typing_laws::law_tuple_elements(m, st, elems@, elems@.len(), i);
}

/// The empty tuple has no elements, and one expression is inferred after those before it.
pub proof fn law_expressions_are_inferred_in_order(m: Meaning, st: Checker, es: Seq<Expr>, n: nat)
    requires
        n < es.len(),
    ensures
        infer::infer_all(m, st, es, 0).0 == st,
        infer::infer_all(m, st, es, 0).1.len() == 0,
        infer::infer_all(m, st, es, n + 1).0 == infer::infer(
            m,
            infer::infer_all(m, st, es, n).0,
            es[n as int],
        ).0,
{
}

/// The value of an `if` is that of its first block, whatever the others are.
pub proof fn law_if_has_the_value_of_its_first_block(m: Meaning, st: Checker, e: Expr)
    requires
        e is If,
    ensures
        infer::infer(m, st, e).1 == infer::block(
            m,
            infer::infer(m, st, *(e->If_condition)).0,
            e->If_then_body@,
            e->If_then_body@.len(),
        ).1,
{
}

/// Without other branches an `if` checks its condition and then its block; an `else` is checked
/// behind all that comes before it; a last `elsif` is checked, condition first, behind those before
/// it.
pub proof fn law_if_checks_every_branch(
    m: Meaning,
    st: Checker,
    condition: Box<Expr>,
    then_body: Vec<Stmt>,
    fewer: Vec<(Expr, Vec<Stmt>)>,
    branches: Vec<(Expr, Vec<Stmt>)>,
    else_body: Vec<Stmt>,
    span: Span,
)
    ensures
        ({
            let plain = infer::infer(
                m,
                st,
                Expr::If { condition, then_body, elsif_branches: fewer, else_body: None, span },
            ).0;
            let with_branch = infer::infer(
                m,
                st,
                Expr::If { condition, then_body, elsif_branches: branches, else_body: None, span },
            ).0;
            let with_else = infer::infer(
                m,
                st,
                Expr::If {
                    condition,
                    then_body,
                    elsif_branches: fewer,
                    else_body: Some(else_body),
                    span,
                },
            ).0;
            &&& fewer@.len() == 0 ==> plain == infer::block(
                m,
                infer::infer(m, st, *condition).0,
                then_body@,
                then_body@.len(),
            ).0
            &&& with_else == infer::block(m, plain, else_body@, else_body@.len()).0
            &&& branches@.len() > 0 && fewer@ == branches@.drop_last() ==> with_branch
                == infer::block(
                m,
                infer::infer(m, plain, branches@.last().0).0,
                branches@.last().1@,
                branches@.last().1@.len(),
            ).0
        }),
{
    let c = infer::infer(m, st, *condition).0;
    let value = infer::block(m, c, then_body@, then_body@.len()).0;
    assert(infer::check_branches(m, value, fewer@, 0) == value);
    if branches@.len() > 0 && fewer@ == branches@.drop_last() {
        lemma_branches_of_prefix(m, value, branches@, fewer@, fewer@.len());
        let n = branches@.len();
        let before = infer::check_branches(m, value, fewer@, fewer@.len());
        assert(infer::check_branches(m, value, branches@, n) == infer::block(
            m,
            infer::infer(m, before, branches@[n - 1].0).0,
            branches@[n - 1].1@,
            branches@[n - 1].1@.len(),
        ).0);
    }
}

proof fn lemma_branches_of_prefix(
    m: Meaning,
    st: Checker,
    branches: Seq<(Expr, Vec<Stmt>)>,
    fewer: Seq<(Expr, Vec<Stmt>)>,
    n: nat,
)
    requires
        branches.len() > 0,
        fewer == branches.drop_last(),
        n <= fewer.len(),
    ensures
        infer::check_branches(m, st, branches, n) == infer::check_branches(m, st, fewer, n),
    decreases n,
{
    if n > 0 {
        lemma_branches_of_prefix(m, st, branches, fewer, (n - 1) as nat);
        assert(branches[n - 1] == fewer[n - 1]);
    }
}

/// A cast has its target type, allowed or not; one that is not allowed is reported once, behind what
/// its operand reports.
pub proof fn law_casts(m: Meaning, st: Checker, inner: Box<Expr>, ty: TypeExpr, span: Span)
    ensures
        ({
            let from = infer::infer(m, st, *inner);
            let to = (m.lower)(ty);
            let t = infer::infer(m, st, Expr::Cast(inner, ty, span));
            &&& t.1 == to
            &&& (m.cast)(from.1, to) ==> t.0 == from.0
            &&& !(m.cast)(from.1, to) ==> {
                let report = t.0.diagnostics.last();
                &&& typing_laws::differ_in_diagnostics(from.0, t.0)
                &&& t.0.diagnostics == from.0.diagnostics.push(report)
                &&& report.span == span
                &&& report.message == "invalid cast: cannot cast `"@ + (m.show)(from.1) + "` as `"@
                    + (m.show)(to) + "`"@
                &&& report.hint
                    == "valid casts: numeric<->numeric, numeric<->bool, any<->concrete type"@
            }
        }),
{
}

/// A `return` has no value, `self` is of the type `Self`, a range is an array of integers, and a
/// struct literal has its struct type; none of them looks at its parts.
pub proof fn law_forms_of_fixed_type(m: Meaning, st: Checker, e: Expr)
    ensures
        e is Return ==> infer::infer(m, st, e) == (st, Ty::Void),
        e is SelfExpr ==> infer::infer(m, st, e) == (st, Ty::Named("Self"@)),
        e is Range ==> infer::infer(m, st, e) == (st, Ty::Array(Box::new(Ty::Int))),
        e matches Expr::StructLit(name, _, _) ==> infer::infer(m, st, e) == (st, Ty::Named(name@)),
        e is Path || e is MethodCall || e is Await || e is Unsafe || e is Opaque ==> infer::infer(
            m,
            st,
            e,
        ) == (st, Ty::Any),
{
}

/// `?` takes an optional value out of its wrapping and leaves any other as it is; an assignment is
/// what is assigned; a compound assignment is what is assigned to.
pub proof fn law_forms_that_pass_a_type_on(m: Meaning, st: Checker, e: Expr)
    ensures
        e matches Expr::Try(inner, _) ==> {
            let t = infer::infer(m, st, *inner);
            &&& infer::infer(m, st, e).0 == t.0
            &&& t.1 matches Ty::Optional(held) ==> infer::infer(m, st, e).1 == *held
            &&& !(t.1 is Optional) ==> infer::infer(m, st, e).1 == t.1
        },
        e matches Expr::Assign(_, rhs, _) ==> infer::infer(m, st, e) == infer::infer(m, st, *rhs),
        e matches Expr::CompoundAssign(lhs, _, _, _) ==> infer::infer(m, st, e) == infer::infer(
            m,
            st,
            *lhs,
        ),
{
}

/// A closure is a function from the declared types of its parameters to its declared result, else
/// to the type of its last statement: that of an expression, or unknown; without statements it
/// gives nothing.
pub proof fn law_closures(m: Meaning, st: Checker, e: Expr)
    requires
        e is Closure,
    ensures
        ({
            let t = infer::infer(m, st, e);
            let params = e->Closure_params@;
            let body = e->Closure_body@;
            &&& t.1 matches Ty::Fn(tys, ret) && tys.len() == params.len() && (forall|i: int|
                0 <= i < params.len() ==> #[trigger] tys[i] == (m.lower)(params[i].ty)) && match (
            e->Closure_return_type) {
                Some(ty) => t.0 == st && *ret == (m.lower)(ty),
                None => {
                    &&& body.len() == 0 ==> t.0 == st && *ret == Ty::Void
                    &&& body.len() > 0 ==> match body.last() {
                        Stmt::Expr(value, _) => t.0 == infer::infer(m, st, value).0 && *ret
                            == infer::infer(m, st, value).1,
                        _ => t.0 == st && *ret == Ty::Any,
                    }
                },
            }
        }),
{
}

/// The value of a `match` is that of the block of its first arm, behind its guard; without arms it is
/// unknown. The check that no case is left out comes behind the subject and before the arms.
pub proof fn law_match_has_the_value_of_its_first_arm(
    m: Meaning,
    st: Checker,
    subject: Box<Expr>,
    arms: Vec<MatchArm>,
    span: Span,
)
    ensures
        ({
            let s = infer::infer(m, st, *subject);
            let checked = (m.exhaustive)(s.0, s.1, arms@, span);
            let t = infer::infer(m, st, Expr::Match { subject, arms, span });
            &&& arms@.len() == 0 ==> t == (checked, Ty::Any)
            &&& arms@.len() > 0 ==> t.1 == infer::block(
                m,
                match arms@[0].guard {
                    Some(g) => infer::infer(m, checked, g).0,
                    None => checked,
                },
                arms@[0].body@,
                arms@[0].body@.len(),
            ).1
            &&& t.0 == infer::check_arms(m, checked, arms@, arms@.len()).0
        }),
{
    let s = infer::infer(m, st, *subject);
    let checked = (m.exhaustive)(s.0, s.1, arms@, span);
    assert(infer::check_arms(m, checked, arms@, 0) == (checked, Ty::Any));
    if arms@.len() > 0 {
        lemma_first_arm(m, checked, arms@, arms@.len());
    }
}

proof fn lemma_first_arm(m: Meaning, st: Checker, arms: Seq<MatchArm>, n: nat)
    requires
        0 < n <= arms.len(),
    ensures
        infer::check_arms(m, st, arms, n).1 == infer::block(
            m,
            match arms[0].guard {
                Some(g) => infer::infer(m, st, g).0,
                None => st,
            },
            arms[0].body@,
            arms[0].body@.len(),
        ).1,
    decreases n,
{
    if n > 1 {
        lemma_first_arm(m, st, arms, (n - 1) as nat);
    } else {
        assert(infer::check_arms(m, st, arms, 0).0 == st);
    }
}

/// Every arm is checked behind those before it, guard first.
pub proof fn law_arms_are_checked_in_order(m: Meaning, st: Checker, arms: Seq<MatchArm>, n: nat)
    requires
        n < arms.len(),
    ensures
        infer::check_arms(m, st, arms, 0).0 == st,
        infer::check_arms(m, st, arms, n + 1).0 == infer::block(
            m,
            match arms[n as int].guard {
                Some(g) => infer::infer(m, infer::check_arms(m, st, arms, n).0, g).0,
                None => infer::check_arms(m, st, arms, n).0,
            },
            arms[n as int].body@,
            arms[n as int].body@.len(),
        ).0,
{
}

/// A loop checks its condition, or what it runs over, and then its body; a `do` block checks its
/// body. None of them has a value.
pub proof fn law_loops_check_their_bodies(m: Meaning, st: Checker, e: Expr)
    ensures
        e matches Expr::While { condition, body, .. } ==> infer::infer(m, st, e) == (
            infer::block(m, infer::infer(m, st, *condition).0, body@, body@.len()).0,
            Ty::Void,
        ),
        e matches Expr::For { iterable, body, .. } ==> infer::infer(m, st, e) == (
            infer::block(m, infer::infer(m, st, *iterable).0, body@, body@.len()).0,
            Ty::Void,
        ),
        e matches Expr::Do { body, .. } ==> infer::infer(m, st, e) == (
            infer::block(m, st, body@, body@.len()).0,
            Ty::Void,
        ),
{
}

} // verus!
