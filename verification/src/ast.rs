//! The syntax tree of an H# module, as far as the passes of this crate read it.

use vstd::prelude::*;

verus! {

/// A half-open range of byte offsets in the source text.
#[derive(Debug, Clone, Copy, PartialEq, Eq, Structural)]
pub struct Span {
    pub start: usize,
    pub end: usize,
}

/// A type as it is written in source text.
#[derive(Debug)]
pub enum TypeExpr {
    Named(String),
    Generic(String, Vec<TypeExpr>),
    Array(Box<TypeExpr>),
    /// `&[T]` without a length, `[T; n]` with one.
    Slice(Box<TypeExpr>, Option<usize>),
    Tuple(Vec<TypeExpr>),
    Fn(Vec<TypeExpr>, Box<TypeExpr>),
    Optional(Box<TypeExpr>),
    Ref(Box<TypeExpr>),
    RefMut(Box<TypeExpr>),
    Void,
    I8,
    I16,
    I32,
    I64,
    I128,
    U8,
    U16,
    U32,
    U64,
    U128,
    F32,
    F64,
    Bool,
    String,
    Bytes,
}

/// A literal; the text of a float or of an interpolated string is kept as written.
#[derive(Debug)]
pub enum Literal {
    Int(i64),
    Float(String),
    String(String),
    Interpolated(String),
    Bool(bool),
    Nil,
    Bytes(Vec<u8>),
}

#[derive(Debug, Clone, Copy, PartialEq, Eq, Structural)]
pub enum BinOp {
    Add,
    Sub,
    Mul,
    Div,
    Mod,
    Eq,
    NotEq,
    Lt,
    Gt,
    LtEq,
    GtEq,
    And,
    Or,
    BitAnd,
    BitOr,
    BitXor,
    Shl,
    Shr,
}

#[derive(Debug, Clone, Copy, PartialEq, Eq, Structural)]
pub enum UnOp {
    Not,
    Neg,
    Ref,
    RefMut,
    Deref,
    BitNot,
}

/// A parameter of a function or of a closure.
#[derive(Debug)]
pub struct Param {
    pub name: String,
    pub ty: TypeExpr,
}

/// One arm of a `match`; the pattern is kept as written.
#[derive(Debug)]
pub struct MatchArm {
    pub pattern: String,
    pub guard: Option<Expr>,
    pub body: Vec<Stmt>,
}

#[derive(Debug)]
pub enum Expr {
    Literal(Literal, Span),
    Ident(String, Span),
    Path(Vec<String>, Span),
    SelfExpr(Span),
    StructLit(String, Vec<(String, Expr)>, Span),
    ArrayLit(Vec<Expr>, Span),
    TupleLit(Vec<Expr>, Span),
    BinOp(Box<Expr>, BinOp, Box<Expr>, Span),
    UnOp(UnOp, Box<Expr>, Span),
    Call(Box<Expr>, Vec<Expr>, Span),
    MethodCall(Box<Expr>, String, Vec<Expr>, Span),
    FieldAccess(Box<Expr>, String, Span),
    IndexAccess(Box<Expr>, Box<Expr>, Span),
    Cast(Box<Expr>, TypeExpr, Span),
    Try(Box<Expr>, Span),
    Await(Box<Expr>, Span),
    Assign(Box<Expr>, Box<Expr>, Span),
    CompoundAssign(Box<Expr>, BinOp, Box<Expr>, Span),
    /// The flag tells whether the upper end belongs to the range.
    Range(Box<Expr>, Box<Expr>, bool, Span),
    Return(Option<Box<Expr>>, Span),
    If {
        condition: Box<Expr>,
        then_body: Vec<Stmt>,
        elsif_branches: Vec<(Expr, Vec<Stmt>)>,
        else_body: Option<Vec<Stmt>>,
        span: Span,
    },
    Match {
        subject: Box<Expr>,
        arms: Vec<MatchArm>,
        span: Span,
    },
    While {
        condition: Box<Expr>,
        body: Vec<Stmt>,
        span: Span,
    },
    For {
        binding: String,
        iterable: Box<Expr>,
        body: Vec<Stmt>,
        span: Span,
    },
    Do {
        body: Vec<Stmt>,
        span: Span,
    },
    /// An `unsafe` block with its optional memory-mode annotation.
    Unsafe(Vec<Stmt>, Option<String>, Span),
    Closure {
        params: Vec<Param>,
        return_type: Option<TypeExpr>,
        body: Vec<Stmt>,
        span: Span,
    },
    /// A form that the passes of this crate treat as a leaf of unknown type.
    Opaque(Span),
}

#[derive(Debug)]
pub enum Stmt {
    Let {
        name: String,
        ty: Option<TypeExpr>,
        mutable: bool,
        value: Option<Expr>,
        span: Span,
    },
    Expr(Expr, Span),
    Return(Option<Expr>, Span),
    Break(Option<Expr>, Span),
    Continue(Span),
    Item(Item),
}

#[derive(Debug)]
pub struct FnDef {
    pub name: String,
    pub type_params: Vec<String>,
    pub params: Vec<Param>,
    pub return_type: Option<TypeExpr>,
    pub body: Vec<Stmt>,
    pub pub_: bool,
}

#[derive(Debug)]
pub struct StructDef {
    pub name: String,
    pub type_params: Vec<String>,
    pub fields: Vec<Param>,
    pub pub_: bool,
}

#[derive(Debug)]
pub enum EnumVariantFields {
    Unit,
    Tuple(Vec<TypeExpr>),
    Struct(Vec<Param>),
}

#[derive(Debug)]
pub struct EnumVariant {
    pub name: String,
    pub fields: EnumVariantFields,
}

#[derive(Debug)]
pub struct EnumDef {
    pub name: String,
    pub type_params: Vec<String>,
    pub variants: Vec<EnumVariant>,
    pub pub_: bool,
}

#[derive(Debug)]
pub struct TraitDef {
    pub name: String,
    pub pub_: bool,
}

#[derive(Debug)]
pub struct ImplBlock {
    pub target: String,
    pub methods: Vec<FnDef>,
}

#[derive(Debug)]
pub enum Item {
    FnDef(FnDef),
    StructDef(StructDef),
    EnumDef(EnumDef),
    TraitDef(TraitDef),
    ImplBlock(ImplBlock),
    ConstDef { name: String, ty: Option<TypeExpr>, value: Option<Expr>, pub_: bool },
    TypeAlias { name: String, aliased: TypeExpr, pub_: bool },
    /// A module; `inline` holds its items once they are known.
    ModDecl { name: String, inline: Option<Vec<Item>>, pub_: bool },
    /// An import or any other item without a body or an exported name.
    Other,
}

#[derive(Debug)]
pub struct Module {
    pub items: Vec<Item>,
}

} // verus!
