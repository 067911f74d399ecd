//! The types of the H# type checker.

use vstd::prelude::*;

verus! {

/// A type of the checker.
#[derive(Debug)]
pub enum HType {
    Void,
    /// The type of what the checker does not follow; it goes with every other.
    Any,
    Bool,
    Int,
    I8,
    I16,
    I32,
    I64,
    I128,
    U8,
    U16,
    U32,
    U64,
    U128,
    F32,
    F64,
    Str,
    Bytes,
    Named(String),
    Array(Box<HType>),
    Optional(Box<HType>),
    Ref(Box<HType>),
    RefMut(Box<HType>),
    Tuple(Vec<HType>),
    Fn(Vec<HType>, Box<HType>),
}

/// The mathematical value of an [`HType`].
pub enum Ty {
    Void,
    Any,
    Bool,
    Int,
    I8,
    I16,
    I32,
    I64,
    I128,
    U8,
    U16,
    U32,
    U64,
    U128,
    F32,
    F64,
    Str,
    Bytes,
    Named(Seq<char>),
    Array(Box<Ty>),
    Optional(Box<Ty>),
    Ref(Box<Ty>),
    RefMut(Box<Ty>),
    Tuple(Seq<Ty>),
    Fn(Seq<Ty>, Box<Ty>),
}

impl HType {
    /// The mathematical value of the type.
    pub open spec fn ty(self) -> Ty
        decreases self,
    {
        match self {
            HType::Void => Ty::Void,
            HType::Any => Ty::Any,
            HType::Bool => Ty::Bool,
            HType::Int => Ty::Int,
            HType::I8 => Ty::I8,
            HType::I16 => Ty::I16,
            HType::I32 => Ty::I32,
            HType::I64 => Ty::I64,
            HType::I128 => Ty::I128,
            HType::U8 => Ty::U8,
            HType::U16 => Ty::U16,
            HType::U32 => Ty::U32,
            HType::U64 => Ty::U64,
            HType::U128 => Ty::U128,
            HType::F32 => Ty::F32,
            HType::F64 => Ty::F64,
            HType::Str => Ty::Str,
            HType::Bytes => Ty::Bytes,
            HType::Named(name) => Ty::Named(name@),
            HType::Array(t) => Ty::Array(Box::new((*t).ty())),
            HType::Optional(t) => Ty::Optional(Box::new((*t).ty())),
            HType::Ref(t) => Ty::Ref(Box::new((*t).ty())),
            HType::RefMut(t) => Ty::RefMut(Box::new((*t).ty())),
            HType::Tuple(elems) => Ty::Tuple(
                Seq::new(
                    elems@.len(),
                    |i: int|
                        if 0 <= i < elems@.len() {
                            elems@[i].ty()
                        } else {
                            Ty::Any
                        },
                ),
            ),
            HType::Fn(params, ret) => Ty::Fn(
                Seq::new(
                    params@.len(),
                    |i: int|
                        if 0 <= i < params@.len() {
                            params@[i].ty()
                        } else {
                            Ty::Any
                        },
                ),
                Box::new((*ret).ty()),
            ),
        }
    }
}

impl View for HType {
    type V = Ty;

    open spec fn view(&self) -> Ty {
        self.ty()
    }
}

/// The values of `tys`.
pub open spec fn tys_of(tys: Seq<HType>) -> Seq<Ty> {
    tys.map_values(|t: HType| t@)
}

impl Clone for HType {
    /// A copy of the type.
    fn clone(&self) -> (r: HType)
        ensures
            r@ == self@,
        decreases *self,
    {
        match self {
            HType::Void => HType::Void,
            HType::Any => HType::Any,
            HType::Bool => HType::Bool,
            HType::Int => HType::Int,
            HType::I8 => HType::I8,
            HType::I16 => HType::I16,
            HType::I32 => HType::I32,
            HType::I64 => HType::I64,
            HType::I128 => HType::I128,
            HType::U8 => HType::U8,
            HType::U16 => HType::U16,
            HType::U32 => HType::U32,
            HType::U64 => HType::U64,
            HType::U128 => HType::U128,
            HType::F32 => HType::F32,
            HType::F64 => HType::F64,
            HType::Str => HType::Str,
            HType::Bytes => HType::Bytes,
            HType::Named(name) => HType::Named(name.clone()),
            HType::Array(t) => HType::Array(Box::new((**t).clone())),
            HType::Optional(t) => HType::Optional(Box::new((**t).clone())),
            HType::Ref(t) => HType::Ref(Box::new((**t).clone())),
            HType::RefMut(t) => HType::RefMut(Box::new((**t).clone())),
            HType::Tuple(elems) => {
                let r = HType::Tuple(clone_all(elems));
                proof {
                    lemma_tuple_ty(*self);
                    lemma_tuple_ty(r);
                }
                r
            },
            HType::Fn(params, ret) => {
                let r = HType::Fn(clone_all(params), Box::new((**ret).clone()));
                proof {
                    lemma_fn_ty(*self);
                    lemma_fn_ty(r);
                }
                r
            },
        }
    }

}

impl HType {
    /// Whether the type is a number.
    pub fn is_numeric(&self) -> (r: bool)
        ensures
            r == is_numeric(self@),
    {
        match self {
            HType::Int => true,
            HType::I8 => true,
            HType::I16 => true,
            HType::I32 => true,
            HType::I64 => true,
            HType::I128 => true,
            HType::U8 => true,
            HType::U16 => true,
            HType::U32 => true,
            HType::U64 => true,
            HType::U128 => true,
            HType::F32 => true,
            HType::F64 => true,
            _ => false,
        }
    }
}

/// Whether a type is a number.
pub open spec fn is_numeric(ty: Ty) -> bool {
    match ty {
        Ty::Int | Ty::I8 | Ty::I16 | Ty::I32 | Ty::I64 | Ty::I128 | Ty::U8 | Ty::U16 | Ty::U32
        | Ty::U64 | Ty::U128 | Ty::F32 | Ty::F64 => true,
        _ => false,
    }
}

/// The value of a tuple type lists the values of its elements.
pub proof fn lemma_tuple_ty(t: HType)
    ensures
        t matches HType::Tuple(elems) ==> t@ == Ty::Tuple(tys_of(elems@)),
{
    if let HType::Tuple(elems) = t {
        assert(t@->Tuple_0 =~= tys_of(elems@));
    }
}

/// The value of a function type lists the values of its parameters.
pub proof fn lemma_fn_ty(t: HType)
    ensures
        t matches HType::Fn(params, ret) ==> t@ == Ty::Fn(tys_of(params@), Box::new((*ret)@)),
{
    if let HType::Fn(params, ret) = t {
        assert(t@->Fn_0 =~= tys_of(params@));
    }
}

/// Copies of `tys`, in order.
fn clone_all(tys: &Vec<HType>) -> (r: Vec<HType>)
    ensures
        tys_of(r@) == tys_of(tys@),
    decreases tys@,
{
    let mut r: Vec<HType> = Vec::new();
    let mut i: usize = 0;
    while i < tys.len()
        invariant
            i <= tys@.len(),
            r@.len() == i,
            forall|k: int| 0 <= k < i ==> (#[trigger] r@[k])@ == tys@[k]@,
        decreases tys@.len() - i,
    {
        r.push(tys[i].clone());
        i = i + 1;
    }
    assert(tys_of(r@) =~= tys_of(tys@));
    r
}

} // verus!
