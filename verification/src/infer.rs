//! The types of expressions.

use vstd::prelude::*;

use crate::ast::{BinOp, Expr, Literal, MatchArm, Param, Span, Stmt, TypeExpr, UnOp};
use crate::checker;
use crate::checker::{Checker, TypeChecker};
use crate::htype;
use crate::htype::{HType, Ty};
use crate::text;
use crate::typing_laws;

verus! {

/// The parts of the language that expression inference leaves to others: how types are written,
/// which casts are allowed, and what the checker does with statements and with `match` arms.
pub trait Semantics {
    /// The type that a type expression denotes.
    fn lower_type(&self, ty: &TypeExpr) -> HType;

    /// The spelling of a type in messages.
    fn display(&self, ty: &HType) -> String;

    /// Whether a value of one type can be cast to another.
    fn cast_allowed(&self, from: &HType, to: &HType) -> bool;

    /// Checks a statement, and gives the checker afterwards and the type of its value.
    fn check_stmt(&self, checker: TypeChecker, stmt: &Stmt) -> (TypeChecker, HType);

    /// Checks that the arms of a `match` leave no case out, and gives the checker afterwards.
    fn check_match_exhaustive(
        &self,
        checker: TypeChecker,
        subject: &HType,
        arms: &Vec<MatchArm>,
        span: &Span,
    ) -> TypeChecker;
}

/// A mathematical reading of a [`Semantics`].
pub struct Meaning {
    pub lower: spec_fn(TypeExpr) -> Ty,
    pub show: spec_fn(Ty) -> Seq<char>,
    pub cast: spec_fn(Ty, Ty) -> bool,
    pub stmt: spec_fn(Checker, Stmt) -> (Checker, Ty),
    pub exhaustive: spec_fn(Checker, Ty, Seq<MatchArm>, Span) -> Checker,
}

/// Whether every answer of `sem` is the one that `m` gives.
pub open spec fn obeys<S: Semantics>(sem: S, m: Meaning) -> bool {
    &&& forall|ty: &TypeExpr, r: HType| #[trigger]
        call_ensures(S::lower_type, (&sem, ty), r) ==> r@ == (m.lower)(*ty)
    &&& forall|ty: &HType, r: String| #[trigger]
        call_ensures(S::display, (&sem, ty), r) ==> r@ == (m.show)(ty@)
    &&& forall|from: &HType, to: &HType, r: bool| #[trigger]
        call_ensures(S::cast_allowed, (&sem, from, to), r) ==> r == (m.cast)(from@, to@)
    &&& forall|checker: TypeChecker, stmt: &Stmt, r: (TypeChecker, HType)| #[trigger]
        call_ensures(S::check_stmt, (&sem, checker, stmt), r) ==> (r.0@, r.1@) == (m.stmt)(
            checker@,
            *stmt,
        )
    &&& forall|
        checker: TypeChecker,
        subject: &HType,
        arms: &Vec<MatchArm>,
        span: &Span,
        r: TypeChecker,
    | #[trigger]
        call_ensures(S::check_match_exhaustive, (&sem, checker, subject, arms, span), r) ==> r@ == (
        m.exhaustive)(checker@, subject@, arms@, *span)
}

/// A reading that allows every cast and leaves the checker as it is.
pub open spec fn silent() -> Meaning {
    Meaning {
        lower: |ty: TypeExpr| Ty::Any,
        show: |ty: Ty| Seq::empty(),
        cast: |from: Ty, to: Ty| true,
        stmt: |st: Checker, stmt: Stmt| (st, Ty::Void),
        exhaustive: |st: Checker, subject: Ty, arms: Seq<MatchArm>, span: Span| st,
    }
}

/// The type of a literal.
pub open spec fn literal_ty(lit: Literal) -> Ty {
    match lit {
        Literal::Int(_) => Ty::Int,
        Literal::Float(_) => Ty::F64,
        Literal::String(_) => Ty::Str,
        Literal::Interpolated(_) => Ty::Str,
        Literal::Bool(_) => Ty::Bool,
        Literal::Nil => Ty::Optional(Box::new(Ty::Any)),
        Literal::Bytes(_) => Ty::Bytes,
    }
}

/// Whether `name` stands for something that the parser put in, of no known type.
pub open spec fn is_synthetic(name: Seq<char>) -> bool {
    "__bind:"@.is_prefix_of(name) || "__closure_"@.is_prefix_of(name)
}

/// The type of an identifier: that of the variable, else of the constant, else unknown.
pub open spec fn ident_ty(st: Checker, name: Seq<char>) -> Ty {
    if is_synthetic(name) {
        Ty::Any
    } else {
        match st.var(name) {
            Some(v) => v.ty,
            None => if st.consts.contains_key(name) {
                st.consts[name]
            } else {
                Ty::Any
            },
        }
    }
}

/// The type of a binary operation on operands of types `l` and `r`.
pub open spec fn binop_ty(op: BinOp, l: Ty, r: Ty) -> Ty {
    match op {
        BinOp::Eq | BinOp::NotEq | BinOp::Lt | BinOp::Gt | BinOp::LtEq | BinOp::GtEq | BinOp::And
        | BinOp::Or => Ty::Bool,
        _ => if op == BinOp::Add && (l == Ty::Str || r == Ty::Str) {
            Ty::Str
        } else if htype::is_numeric(l) && htype::is_numeric(r) {
            l
        } else {
            Ty::Any
        },
    }
}

/// The type of a unary operation on an operand of type `t`.
pub open spec fn unop_ty(op: UnOp, t: Ty) -> Ty {
    match op {
        UnOp::Not => Ty::Bool,
        UnOp::Ref => Ty::Ref(Box::new(t)),
        UnOp::RefMut => Ty::RefMut(Box::new(t)),
        _ => t,
    }
}

/// The type of a call: the declared result of the function that the callee names. A path is tried
/// as it is written, with its segments joined by `_`, and by its last segment.
pub open spec fn call_ty(st: Checker, callee: Expr) -> Ty {
    match callee {
        Expr::Ident(name, _) => if st.fns.contains_key(name@) {
            st.fns[name@]
        } else {
            Ty::Any
        },
        Expr::Path(segments, _) => {
            let full = text::joined(text::texts(segments@), "::"@);
            let snake = text::joined(text::texts(segments@), "_"@);
            if st.fns.contains_key(full) {
                st.fns[full]
            } else if st.fns.contains_key(snake) {
                st.fns[snake]
            } else if segments@.len() > 0 && st.fns.contains_key(segments@.last()@) {
                st.fns[segments@.last()@]
            } else {
                Ty::Any
            }
        },
        _ => Ty::Any,
    }
}

/// The struct that a field access on a value of type `t` looks into: references are followed once.
pub open spec fn struct_behind(t: Ty) -> Option<Seq<char>> {
    match t {
        Ty::Named(name) => Some(name),
        Ty::Ref(inner) => match *inner {
            Ty::Named(name) => Some(name),
            _ => None,
        },
        Ty::RefMut(inner) => match *inner {
            Ty::Named(name) => Some(name),
            _ => None,
        },
        _ => None,
    }
}

/// The type of the first of the first `n` fields with the name `name`.
pub open spec fn field_ty(fields: Seq<(Seq<char>, Ty)>, n: nat, name: Seq<char>) -> Option<Ty>
    decreases n,
{
    if n == 0 || n > fields.len() {
        None
    } else {
        match field_ty(fields, (n - 1) as nat, name) {
            Some(t) => Some(t),
            None => if fields[n - 1].0 == name {
                Some(fields[n - 1].1)
            } else {
                None
            },
        }
    }
}

pub open spec fn no_tuple_field_text(len: nat, field: Seq<char>) -> Seq<char> {
    "tuple of "@ + text::decimal_text(len) + " element(s) has no field `."@ + field + "`"@
}

pub open spec fn tuple_hint_text() -> Seq<char> {
    "tuple fields are accessed positionally as `.0`, `.1`, ... up to (len - 1)"@
}

pub open spec fn no_struct_field_text(name: Seq<char>, field: Seq<char>) -> Seq<char> {
    "struct `"@ + name + "` has no field `"@ + field + "`"@
}

pub open spec fn struct_hint_text(name: Seq<char>, fields: Seq<(Seq<char>, Ty)>) -> Seq<char> {
    if fields.len() == 0 {
        "`"@ + name + "` has no fields"@
    } else {
        "available fields: "@ + text::joined(
            fields.map_values(|f: (Seq<char>, Ty)| f.0),
            ", "@,
        )
    }
}

pub open spec fn bad_cast_text(from: Seq<char>, to: Seq<char>) -> Seq<char> {
    "invalid cast: cannot cast `"@ + from + "` as `"@ + to + "`"@
}

pub open spec fn cast_hint_text() -> Seq<char> {
    "valid casts: numeric<->numeric, numeric<->bool, any<->concrete type"@
}

/// What the access to `field` on a value of type `base` does: its type, and an error for a tuple or
/// a known struct without that field.
pub open spec fn access(st: Checker, base: Ty, field: Seq<char>, span: Span) -> (Checker, Ty) {
    match base {
        Ty::Tuple(elems) => match text::index_of_text(field) {
            Some(i) => if i < elems.len() {
                (st, elems[i as int])
            } else {
                (
                    st.reported(span, no_tuple_field_text(elems.len(), field), tuple_hint_text()),
                    Ty::Any,
                )
            },
            None => (
                st.reported(span, no_tuple_field_text(elems.len(), field), tuple_hint_text()),
                Ty::Any,
            ),
        },
        _ => match struct_behind(base) {
            Some(name) => if st.structs.contains_key(name) {
                let fields = st.structs[name];
                match field_ty(fields, fields.len(), field) {
                    Some(t) => (st, t),
                    None => (
                        st.reported(
                            span,
                            no_struct_field_text(name, field),
                            struct_hint_text(name, fields),
                        ),
                        Ty::Any,
                    ),
                }
            } else {
                (st, Ty::Any)
            },
            None => (st, Ty::Any),
        },
    }
}

/// What a cast does: the target type, and an error where the cast is not allowed.
pub open spec fn cast(m: Meaning, st: Checker, from: Ty, to: Ty, span: Span) -> (Checker, Ty) {
    if (m.cast)(from, to) {
        (st, to)
    } else {
        (st.reported(span, bad_cast_text((m.show)(from), (m.show)(to)), cast_hint_text()), to)
    }
}

/// Checking the first `n` statements of a block: its value is that of the last one.
pub open spec fn block(m: Meaning, st: Checker, body: Seq<Stmt>, n: nat) -> (Checker, Ty)
    decreases n,
{
    if n == 0 || n > body.len() {
        (st, Ty::Void)
    } else {
        (m.stmt)(block(m, st, body, (n - 1) as nat).0, body[n - 1])
    }
}

/// Inferring an expression: the checker afterwards, and the type.
pub open spec fn infer(m: Meaning, st: Checker, e: Expr) -> (Checker, Ty)
    decreases e, 0nat,
{
    match e {
        Expr::Literal(lit, _) => (st, literal_ty(lit)),
        Expr::Ident(name, _) => (st, ident_ty(st, name@)),
        Expr::StructLit(name, _, _) => (st, Ty::Named(name@)),
        Expr::BinOp(lhs, op, rhs, _) => {
            let l = infer(m, st, *lhs);
            let r = infer(m, l.0, *rhs);
            (r.0, binop_ty(op, l.1, r.1))
        },
        Expr::UnOp(op, inner, _) => {
            let t = infer(m, st, *inner);
            (t.0, unop_ty(op, t.1))
        },
        Expr::Call(callee, _, _) => (st, call_ty(st, *callee)),
        Expr::FieldAccess(base, field, span) => {
            let b = infer(m, st, *base);
            access(b.0, b.1, field@, span)
        },
        Expr::IndexAccess(array, _, _) => {
            let a = infer(m, st, *array);
            match a.1 {
                Ty::Array(elem) => (a.0, *elem),
                _ => (a.0, Ty::Any),
            }
        },
        Expr::ArrayLit(elems, _) => if elems@.len() > 0 {
            let first = infer(m, st, elems@[0]);
            (first.0, Ty::Array(Box::new(first.1)))
        } else {
            (st, Ty::Array(Box::new(Ty::Any)))
        },
        Expr::TupleLit(elems, _) => {
            let all = infer_all(m, st, elems@, elems@.len());
            (all.0, Ty::Tuple(all.1))
        },
        Expr::If { condition, then_body, elsif_branches, else_body, .. } => {
            let c = infer(m, st, *condition);
            let value = block(m, c.0, then_body@, then_body@.len());
            let others = check_branches(m, value.0, elsif_branches@, elsif_branches@.len());
            match else_body {
                Some(body) => (block(m, others, body@, body@.len()).0, value.1),
                None => (others, value.1),
            }
        },
        Expr::Cast(inner, ty, span) => {
            let from = infer(m, st, *inner);
            cast(m, from.0, from.1, (m.lower)(ty), span)
        },
        Expr::Return(_, _) => (st, Ty::Void),
        Expr::SelfExpr(_) => (st, Ty::Named("Self"@)),
        Expr::Try(inner, _) => {
            let t = infer(m, st, *inner);
            match t.1 {
                Ty::Optional(held) => (t.0, *held),
                _ => t,
            }
        },
        Expr::Assign(_, rhs, _) => infer(m, st, *rhs),
        Expr::CompoundAssign(lhs, _, _, _) => infer(m, st, *lhs),
        Expr::Range(_, _, _, _) => (st, Ty::Array(Box::new(Ty::Int))),
        Expr::Closure { params, return_type, body, .. } => {
            let param_tys = params@.map_values(|p: Param| (m.lower)(p.ty));
            let ret = match return_type {
                Some(ty) => (st, (m.lower)(ty)),
                None => if body@.len() > 0 {
                    match body@[body@.len() - 1] {
                        Stmt::Expr(value, _) => infer(m, st, value),
                        _ => (st, Ty::Any),
                    }
                } else {
                    (st, Ty::Void)
                },
            };
            (ret.0, Ty::Fn(param_tys, Box::new(ret.1)))
        },
        Expr::Match { subject, arms, span } => {
            let s = infer(m, st, *subject);
            check_arms(m, (m.exhaustive)(s.0, s.1, arms@, span), arms@, arms@.len())
        },
        Expr::While { condition, body, .. } => {
            let c = infer(m, st, *condition);
            (block(m, c.0, body@, body@.len()).0, Ty::Void)
        },
        Expr::For { iterable, body, .. } => {
            let c = infer(m, st, *iterable);
            (block(m, c.0, body@, body@.len()).0, Ty::Void)
        },
        Expr::Do { body, .. } => (block(m, st, body@, body@.len()).0, Ty::Void),
        _ => (st, Ty::Any),
    }
}

/// Inferring the first `n` expressions of `es`, one after the other.
pub open spec fn infer_all(m: Meaning, st: Checker, es: Seq<Expr>, n: nat) -> (Checker, Seq<Ty>)
    decreases es, n,
{
    if n == 0 || n > es.len() {
        (st, Seq::empty())
    } else {
        let before = infer_all(m, st, es, (n - 1) as nat);
        let last = infer(m, before.0, es[n - 1]);
        (last.0, before.1.push(last.1))
    }
}

/// Checking the first `n` conditions and bodies, one after the other.
pub open spec fn check_branches(
    m: Meaning,
    st: Checker,
    branches: Seq<(Expr, Vec<Stmt>)>,
    n: nat,
) -> Checker
    decreases branches, n,
{
    if n == 0 || n > branches.len() {
        st
    } else {
        let before = check_branches(m, st, branches, (n - 1) as nat);
        let c = infer(m, before, branches[n - 1].0);
        block(m, c.0, branches[n - 1].1@, branches[n - 1].1@.len()).0
    }
}

/// Checking the guards and bodies of the first `n` arms, one after the other: the value is that of
/// the first arm.
pub open spec fn check_arms(m: Meaning, st: Checker, arms: Seq<MatchArm>, n: nat) -> (Checker, Ty)
    decreases arms, n,
{
    if n == 0 || n > arms.len() {
        (st, Ty::Any)
    } else {
        let before = check_arms(m, st, arms, (n - 1) as nat);
        let arm = arms[n - 1];
        let guarded = match arm.guard {
            Some(g) => infer(m, before.0, g).0,
            None => before.0,
        };
        let value = block(m, guarded, arm.body@, arm.body@.len());
        (
            value.0,
            if n == 1 {
                value.1
            } else {
                before.1
            },
        )
    }
}

/// Whether inferring `e` asks nothing of the [`Semantics`].
pub open spec fn self_contained(e: Expr) -> bool
    decreases e, 0nat,
{
    match e {
        Expr::BinOp(lhs, _, rhs, _) => self_contained(*lhs) && self_contained(*rhs),
        Expr::UnOp(_, inner, _) => self_contained(*inner),
        Expr::FieldAccess(base, _, _) => self_contained(*base),
        Expr::IndexAccess(array, _, _) => self_contained(*array),
        Expr::ArrayLit(elems, _) => elems@.len() > 0 ==> self_contained(elems@[0]),
        Expr::TupleLit(elems, _) => all_self_contained(elems@, elems@.len()),
        Expr::Try(inner, _) => self_contained(*inner),
        Expr::Assign(_, rhs, _) => self_contained(*rhs),
        Expr::CompoundAssign(lhs, _, _, _) => self_contained(*lhs),
        Expr::While { condition, body, .. } => self_contained(*condition) && body@.len() == 0,
        Expr::For { iterable, body, .. } => self_contained(*iterable) && body@.len() == 0,
        Expr::Do { body, .. } => body@.len() == 0,
        Expr::If { condition, then_body, elsif_branches, else_body, .. } => {
            &&& self_contained(*condition)
            &&& then_body@.len() == 0
            &&& elsif_branches@.len() == 0
            &&& (else_body matches Some(body) ==> body@.len() == 0)
        },
        Expr::Closure { params, return_type, body, .. } => {
            &&& params@.len() == 0
            &&& return_type is None
            &&& (body@.len() > 0 ==> match body@[body@.len() - 1] {
                Stmt::Expr(value, _) => self_contained(value),
                _ => true,
            })
        },
        Expr::Cast(_, _, _) => false,
        Expr::Match { .. } => false,
        _ => true,
    }
}

/// Whether inferring the first `n` expressions of `es` asks nothing of the [`Semantics`].
pub open spec fn all_self_contained(es: Seq<Expr>, n: nat) -> bool
    decreases es, n,
{
    n == 0 || n > es.len() || (all_self_contained(es, (n - 1) as nat) && self_contained(es[n - 1]))
}

/// The place of the first field with the name `name`.
fn find_field(fields: &Vec<(String, HType)>, name: &String) -> (r: Option<usize>)
    ensures
        match r {
            Some(i) => i < fields@.len() && field_ty(
                checker::fields_of(fields@),
                fields@.len(),
                name@,
            ) == Some(fields@[i as int].1@),
            None => field_ty(checker::fields_of(fields@), fields@.len(), name@) is None,
        },
{
    let mut found: Option<usize> = None;
    let mut i: usize = 0;
    while i < fields.len()
        invariant
            i <= fields@.len(),
            match found {
                Some(k) => k < i && field_ty(checker::fields_of(fields@), i as nat, name@) == Some(
                    fields@[k as int].1@,
                ),
                None => field_ty(checker::fields_of(fields@), i as nat, name@) is None,
            },
        decreases fields@.len() - i,
    {
        if found.is_none() && fields[i].0 == *name {
            found = Some(i);
        }
        i = i + 1;
    }
    found
}

/// The hint that goes with a missing field.
fn struct_hint(name: &String, fields: &Vec<(String, HType)>) -> (r: String)
    ensures
        r@ == struct_hint_text(name@, checker::fields_of(fields@)),
{
    if fields.len() == 0 {
        return text::concat3("`", name.as_str(), "` has no fields");
    }
    let mut available: Vec<String> = Vec::new();
    let mut i: usize = 0;
    while i < fields.len()
        invariant
            i <= fields@.len(),
            available@.len() == i,
            forall|k: int| 0 <= k < i ==> (#[trigger] available@[k])@ == fields@[k].0@,
        decreases fields@.len() - i,
    {
        available.push(fields[i].0.clone());
        i = i + 1;
    }
    proof {
        assert(text::texts(available@) =~= checker::fields_of(fields@).map_values(
            |f: (Seq<char>, Ty)| f.0,
        ));
    }
    let mut r: String = "available fields: ".to_owned();
    r.append(text::join(&available, ", ").as_str());
    r
}

/// The struct that a field access on a value of type `t` looks into.
fn named_struct(t: &HType) -> (r: Option<&String>)
    ensures
        r is Some <==> struct_behind(t@) is Some,
        r matches Some(name) ==> struct_behind(t@) == Some(name@),
{
    proof {
        reveal_with_fuel(HType::ty, 2);
    }
    match t {
        HType::Named(name) => Some(name),
        HType::Ref(inner) => match &**inner {
            HType::Named(name) => Some(name),
            _ => None,
        },
        HType::RefMut(inner) => match &**inner {
            HType::Named(name) => Some(name),
            _ => None,
        },
        _ => None,
    }
}

impl TypeChecker {
    /// The declared result of the function `name`, if there is one.
    fn fn_result(&self, name: &str) -> (r: Option<HType>)
        ensures
            r is Some <==> self@.fns.contains_key(name@),
            r matches Some(t) ==> t@ == self@.fns[name@],
    {
        match self.fns.get(name) {
            Some(sig) => Some(sig.return_type.clone()),
            None => None,
        }
    }

    /// The type of a call of `callee`.
    pub fn infer_call(&self, callee: &Expr) -> (r: HType)
        ensures
            r@ == call_ty(self@, *callee),
    {
        match callee {
            Expr::Ident(name, _) => {
                if let Some(t) = self.fn_result(name.as_str()) {
                    return t;
                }
            },
            Expr::Path(segments, _) => {
                let full: String = text::join(segments, "::");
                if let Some(t) = self.fn_result(full.as_str()) {
                    return t;
                }
                let snake: String = text::join(segments, "_");
                if let Some(t) = self.fn_result(snake.as_str()) {
                    return t;
                }
                if segments.len() > 0 {
                    if let Some(t) = self.fn_result(segments[segments.len() - 1].as_str()) {
                        return t;
                    }
                }
            },
            _ => {},
        }
        HType::Any
    }

    /// The type of the identifier `name`.
    pub fn infer_ident(&self, name: &String) -> (r: HType)
        ensures
            r@ == ident_ty(self@, name@),
    {
        if text::starts_with(name.as_str(), "__bind:") || text::starts_with(
            name.as_str(),
            "__closure_",
        ) {
            return HType::Any;
        }
        if let Some(v) = self.lookup(name.as_str()) {
            v.ty.clone()
        } else if let Some(t) = self.consts.get(name.as_str()) {
            t.clone()
        } else {
            HType::Any
        }
    }

    /// The type of `field` on a value of type `base`; reports a field that is not there.
    pub fn infer_field(&mut self, base: &HType, field: &String, span: &Span) -> (r: HType)
        ensures
            (final(self)@, r@) == access(old(self)@, base@, field@, *span),
    {
        if let HType::Tuple(elems) = base {
            proof {
                htype::lemma_tuple_ty(*base);
            }
            if let Some(i) = text::parse_index(field.as_str()) {
                if i < elems.len() {
                    return elems[i].clone();
                }
            }
            let mut message: String = "tuple of ".to_owned();
            message.append(text::decimal(elems.len() as u64).as_str());
            message.append(" element(s) has no field `.");
            message.append(field.as_str());
            message.append("`");
            self.err_hint(
                *span,
                message,
                "tuple fields are accessed positionally as `.0`, `.1`, ... up to (len - 1)".to_owned(),
            );
            return HType::Any;
        }
        let name: &String = match named_struct(base) {
            Some(name) => name,
            None => {
                return HType::Any;
            },
        };
        let hint: String = match self.structs.get(name.as_str()) {
            Some(fields) => match find_field(fields, field) {
                Some(i) => {
                    return fields[i].1.clone();
                },
                None => struct_hint(name, fields),
            },
            None => {
                return HType::Any;
            },
        };
        let mut message: String = "struct `".to_owned();
        message.append(name.as_str());
        message.append("` has no field `");
        message.append(field.as_str());
        message.append("`");
        self.err_hint(*span, message, hint);
        HType::Any
    }

    /// Has `sem` check one statement.
    fn delegate_stmt<S: Semantics>(&mut self, sem: &S, stmt: &Stmt) -> (r: HType)
        ensures
            forall|m: Meaning| #[trigger]
                obeys(*sem, m) ==> (final(self)@, r@) == (m.stmt)(old(self)@, *stmt),
    {
        let mut taken = TypeChecker::new();
        std::mem::swap(self, &mut taken);
        let answer = sem.check_stmt(taken, stmt);
        *self = answer.0;
        answer.1
    }

    /// Checks every statement of a block; the value of the block is that of its last statement.
    pub fn check_block_value<S: Semantics>(&mut self, sem: &S, body: &Vec<Stmt>) -> (r: HType)
        ensures
            forall|m: Meaning| #[trigger]
                obeys(*sem, m) ==> (final(self)@, r@) == block(m, old(self)@, body@, body@.len()),
            body@.len() == 0 ==> final(self)@ == old(self)@ && r@ == Ty::Void,
    {
        let mut result = HType::Void;
        let mut i: usize = 0;
        while i < body.len()
            invariant
                i <= body@.len(),
                i == 0 ==> self@ == old(self)@ && result@ == Ty::Void,
                forall|m: Meaning| #[trigger]
                    obeys(*sem, m) ==> (self@, result@) == block(m, old(self)@, body@, i as nat),
            decreases body@.len() - i,
        {
            result = self.delegate_stmt(sem, &body[i]);
            i = i + 1;
        }
        result
    }
}

/// The types that `sem` gives to the parameters of a closure.
fn lower_closure_params<S: Semantics>(sem: &S, params: &Vec<Param>) -> (r: Vec<HType>)
    ensures
        r@.len() == params@.len(),
        forall|m: Meaning| #[trigger]
            obeys(*sem, m) ==> htype::tys_of(r@) == params@.map_values(
                |p: Param| (m.lower)(p.ty),
            ),
{
    let mut r: Vec<HType> = Vec::new();
    let mut i: usize = 0;
    while i < params.len()
        invariant
            i <= params@.len(),
            r@.len() == i,
            forall|m: Meaning, k: int|
                obeys(*sem, m) && 0 <= k < i ==> (#[trigger] r@[k])@ == #[trigger] (m.lower)(
                    params@[k].ty,
                ),
        decreases params@.len() - i,
    {
        let t: HType = sem.lower_type(&params[i].ty);
        r.push(t);
        i = i + 1;
    }
    assert forall|m: Meaning| #[trigger] obeys(*sem, m) implies htype::tys_of(
        r@,
    ) == params@.map_values(|p: Param| (m.lower)(p.ty)) by {
        assert(htype::tys_of(r@) =~= params@.map_values(|p: Param| (m.lower)(p.ty)));
    }
    r
}

/// The type of a literal.
fn infer_literal(lit: &Literal) -> (r: HType)
    ensures
        r@ == literal_ty(*lit),
{
    proof {
        reveal_with_fuel(HType::ty, 2);
    }
    match lit {
        Literal::Int(_) => HType::Int,
        Literal::Float(_) => HType::F64,
        Literal::String(_) => HType::Str,
        Literal::Interpolated(_) => HType::Str,
        Literal::Bool(_) => HType::Bool,
        Literal::Nil => HType::Optional(Box::new(HType::Any)),
        Literal::Bytes(_) => HType::Bytes,
    }
}

/// The type of a binary operation on operands of types `l` and `r`.
fn infer_binop(op: BinOp, l: HType, r: HType) -> (t: HType)
    ensures
        t@ == binop_ty(op, l@, r@),
{
    match op {
        BinOp::Eq | BinOp::NotEq | BinOp::Lt | BinOp::Gt | BinOp::LtEq | BinOp::GtEq | BinOp::And
        | BinOp::Or => HType::Bool,
        _ => {
            let text_operand: bool = match (&l, &r) {
                (HType::Str, _) => true,
                (_, HType::Str) => true,
                _ => false,
            };
            if op == BinOp::Add && text_operand {
                HType::Str
            } else if l.is_numeric() && r.is_numeric() {
                l
            } else {
                HType::Any
            }
        },
    }
}

impl TypeChecker {
    /// The type of `expr`, for callers outside the checker; what there is to report about `expr` is
    /// kept among the diagnostics.
    pub fn infer_expr_pub<S: Semantics>(&mut self, sem: &S, expr: &Expr) -> (r: HType)
        ensures
            forall|m: Meaning| #[trigger]
                obeys(*sem, m) ==> (final(self)@, r@) == infer(m, old(self)@, *expr),
            self_contained(*expr) ==> (final(self)@, r@) == infer(silent(), old(self)@, *expr),
            self_contained(*expr) || (exists|m: Meaning| #[trigger]
                obeys(*sem, m) && typing_laws::only_reports(m)) ==> old(
                self,
            )@.diagnostics.is_prefix_of(final(self)@.diagnostics),
    {
        let r = self.infer_expr(sem, expr);
        proof {
            if self_contained(*expr) {
                typing_laws::law_diagnostics_are_retained(silent(), old(self)@, *expr);
            } else if exists|m: Meaning| #[trigger]
                obeys(*sem, m) && typing_laws::only_reports(m) {
                let m = choose|m: Meaning| #[trigger]
                    obeys(*sem, m) && typing_laws::only_reports(m);
                typing_laws::law_diagnostics_are_retained(m, old(self)@, *expr);
            }
        }
        r
    }

    /// The type of `expr`; reports missing fields and casts that are not allowed.
    pub fn infer_expr<S: Semantics>(&mut self, sem: &S, expr: &Expr) -> (r: HType)
        ensures
            forall|m: Meaning| #[trigger]
                obeys(*sem, m) ==> (final(self)@, r@) == infer(m, old(self)@, *expr),
            self_contained(*expr) ==> (final(self)@, r@) == infer(silent(), old(self)@, *expr),
        decreases *expr,
    {
        proof {
            reveal_with_fuel(HType::ty, 2);
        }
        match expr {
            Expr::Literal(lit, _) => infer_literal(lit),
            Expr::Ident(name, _) => self.infer_ident(name),
            Expr::StructLit(name, _, _) => HType::Named(name.clone()),
            Expr::BinOp(lhs, op, rhs, _) => {
                let l: HType = self.infer_expr(sem, lhs);
                let r: HType = self.infer_expr(sem, rhs);
                infer_binop(*op, l, r)
            },
            Expr::UnOp(op, inner, _) => {
                let t: HType = self.infer_expr(sem, inner);
                match op {
                    UnOp::Not => HType::Bool,
                    UnOp::Ref => HType::Ref(Box::new(t)),
                    UnOp::RefMut => HType::RefMut(Box::new(t)),
                    _ => t,
                }
            },
            Expr::Call(callee, _, _) => self.infer_call(callee),
            Expr::FieldAccess(base, field, span) => {
                let b: HType = self.infer_expr(sem, base);
                self.infer_field(&b, field, span)
            },
            Expr::IndexAccess(array, _, _) => {
                match self.infer_expr(sem, array) {
                    HType::Array(elem) => *elem,
                    _ => HType::Any,
                }
            },
            Expr::ArrayLit(elems, _) => {
                let elem: HType = if elems.len() > 0 {
                    self.infer_expr(sem, &elems[0])
                } else {
                    HType::Any
                };
                HType::Array(Box::new(elem))
            },
            Expr::TupleLit(elems, _) => {
                let mut tys: Vec<HType> = Vec::new();
                let mut i: usize = 0;
                while i < elems.len()
                    invariant
                        i <= elems@.len(),
                        decreases_to!(*expr => elems@),
                        forall|m: Meaning| #[trigger]
                            obeys(*sem, m) ==> (self@, htype::tys_of(tys@)) == infer_all(
                                m,
                                old(self)@,
                                elems@,
                                i as nat,
                            ),
                        all_self_contained(elems@, i as nat) ==> (self@, htype::tys_of(tys@))
                            == infer_all(silent(), old(self)@, elems@, i as nat),
                    decreases elems@.len() - i,
                {
                    let ghost before = htype::tys_of(tys@);
                    let t: HType = self.infer_expr(sem, &elems[i]);
                    tys.push(t);
                    i = i + 1;
                    assert(htype::tys_of(tys@) =~= before.push(t@));
                }
                let r = HType::Tuple(tys);
                proof {
                    htype::lemma_tuple_ty(r);
                }
                r
            },
            Expr::If { condition, then_body, elsif_branches, else_body, .. } => {
                self.infer_expr(sem, condition);
                let value: HType = self.check_block_value(sem, then_body);
                let ghost start = self@;
                assert(check_branches(silent(), start, elsif_branches@, 0) == start);
                let mut i: usize = 0;
                while i < elsif_branches.len()
                    invariant
                        i <= elsif_branches@.len(),
                        i == 0 ==> self@ == start,
                        decreases_to!(*expr => elsif_branches@),
                        forall|m: Meaning| #[trigger]
                            obeys(*sem, m) ==> self@ == check_branches(
                                m,
                                start,
                                elsif_branches@,
                                i as nat,
                            ),
                    decreases elsif_branches@.len() - i,
                {
                    self.infer_expr(sem, &elsif_branches[i].0);
                    self.check_block_value(sem, &elsif_branches[i].1);
                    i = i + 1;
                }
                if let Some(body) = else_body {
                    self.check_block_value(sem, body);
                }
                value
            },
            Expr::Cast(inner, ty, span) => {
                let from: HType = self.infer_expr(sem, inner);
                let to: HType = sem.lower_type(ty);
                if !sem.cast_allowed(&from, &to) {
                    let from_text: String = sem.display(&from);
                    let to_text: String = sem.display(&to);
                    let mut message: String = "invalid cast: cannot cast `".to_owned();
                    message.append(from_text.as_str());
                    message.append("` as `");
                    message.append(to_text.as_str());
                    message.append("`");
                    self.err_hint(
                        *span,
                        message,
                        "valid casts: numeric<->numeric, numeric<->bool, any<->concrete type".to_owned(),
                    );
                }
                to
            },
            Expr::Return(_, _) => HType::Void,
            Expr::SelfExpr(_) => HType::Named("Self".to_owned()),
            Expr::Try(inner, _) => {
                match self.infer_expr(sem, inner) {
                    HType::Optional(held) => *held,
                    t => t,
                }
            },
            Expr::Assign(_, rhs, _) => self.infer_expr(sem, rhs),
            Expr::CompoundAssign(lhs, _, _, _) => self.infer_expr(sem, lhs),
            Expr::Range(_, _, _, _) => HType::Array(Box::new(HType::Int)),
            Expr::Closure { params, return_type, body, .. } => {
                let param_tys: Vec<HType> = lower_closure_params(sem, params);
                let ret: HType = match return_type {
                    Some(ty) => sem.lower_type(ty),
                    None => {
                        if body.len() > 0 {
                            match &body[body.len() - 1] {
                                Stmt::Expr(value, _) => self.infer_expr(sem, value),
                                _ => HType::Any,
                            }
                        } else {
                            HType::Void
                        }
                    },
                };
                let r = HType::Fn(param_tys, Box::new(ret));
                proof {
                    htype::lemma_fn_ty(r);
                    if params@.len() == 0 {
                        assert(htype::tys_of(param_tys@) =~= params@.map_values(
                            |p: Param| (silent().lower)(p.ty),
                        ));
                    }
                }
                r
            },
            Expr::Match { subject, arms, span } => {
                let subject_ty: HType = self.infer_expr(sem, subject);
                let mut taken = TypeChecker::new();
                std::mem::swap(self, &mut taken);
                *self = sem.check_match_exhaustive(taken, &subject_ty, arms, span);
                let ghost start = self@;
                let mut result = HType::Any;
                let mut i: usize = 0;
                while i < arms.len()
                    invariant
                        i <= arms@.len(),
                        i == 0 ==> self@ == start && result@ == Ty::Any,
                        decreases_to!(*expr => arms@),
                        forall|m: Meaning| #[trigger]
                            obeys(*sem, m) ==> (self@, result@) == check_arms(
                                m,
                                start,
                                arms@,
                                i as nat,
                            ),
                    decreases arms@.len() - i,
                {
                    if let Some(guard) = &arms[i].guard {
                        self.infer_expr(sem, guard);
                    }
                    let value: HType = self.check_block_value(sem, &arms[i].body);
                    if i == 0 {
                        result = value;
                    }
                    i = i + 1;
                }
                result
            },
            Expr::While { condition, body, .. } => {
                self.infer_expr(sem, condition);
                self.check_block_value(sem, body);
                HType::Void
            },
            Expr::For { iterable, body, .. } => {
                self.infer_expr(sem, iterable);
                self.check_block_value(sem, body);
                HType::Void
            },
            Expr::Do { body, .. } => {
                self.check_block_value(sem, body);
                HType::Void
            },
            _ => HType::Any,
        }
    }
}

} // verus!
