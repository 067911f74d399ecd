//! What a module exports into an `.hlib` archive: its symbols with their ABI types, and the items
//! behind them.

use vstd::prelude::*;

use crate::ast::{EnumVariant, EnumVariantFields, Item, Module, Param, TypeExpr};
use crate::text;

verus! {

/// A type that crosses the native boundary between HackerOS languages.
#[derive(Debug)]
pub enum AbiType {
    I8,
    I16,
    I32,
    I64,
    U8,
    U16,
    U32,
    U64,
    F32,
    F64,
    Bool,
    Void,
    /// A raw pointer; strings and byte buffers travel as one.
    Ptr,
    /// A handle to a value that only the producer can read.
    Opaque { struct_name: String },
}

/// The mathematical value of an [`AbiType`].
pub enum Abi {
    I8,
    I16,
    I32,
    I64,
    U8,
    U16,
    U32,
    U64,
    F32,
    F64,
    Bool,
    Void,
    Ptr,
    Opaque(Seq<char>),
}

impl View for AbiType {
    type V = Abi;

    open spec fn view(&self) -> Abi {
        match self {
            AbiType::I8 => Abi::I8,
            AbiType::I16 => Abi::I16,
            AbiType::I32 => Abi::I32,
            AbiType::I64 => Abi::I64,
            AbiType::U8 => Abi::U8,
            AbiType::U16 => Abi::U16,
            AbiType::U32 => Abi::U32,
            AbiType::U64 => Abi::U64,
            AbiType::F32 => Abi::F32,
            AbiType::F64 => Abi::F64,
            AbiType::Bool => Abi::Bool,
            AbiType::Void => Abi::Void,
            AbiType::Ptr => Abi::Ptr,
            AbiType::Opaque { struct_name } => Abi::Opaque(struct_name@),
        }
    }
}

#[derive(Debug, Clone, Copy, PartialEq, Eq, Structural)]
pub enum ExportedSymbolKind {
    Function,
    Struct,
    Enum,
    Trait,
    Const,
    TypeAlias,
}

/// One exported name of an archive.
#[derive(Debug)]
pub struct ExportedSymbol {
    pub name: String,
    pub kind: ExportedSymbolKind,
    /// The declaration in H# spelling, for human readers and binding stubs.
    pub signature: String,
    pub params: Vec<AbiType>,
    pub returns: Option<AbiType>,
    /// Whether only the source form of the item serves a consumer.
    pub generic: bool,
    pub is_macro: bool,
}

/// The mathematical value of an [`ExportedSymbol`].
pub struct Symbol {
    pub name: Seq<char>,
    pub kind: ExportedSymbolKind,
    pub signature: Seq<char>,
    pub params: Seq<Abi>,
    pub returns: Option<Abi>,
    pub generic: bool,
    pub is_macro: bool,
}

pub open spec fn abi_of(ty: Option<AbiType>) -> Option<Abi> {
    match ty {
        Some(t) => Some(t@),
        None => None,
    }
}

impl View for ExportedSymbol {
    type V = Symbol;

    open spec fn view(&self) -> Symbol {
        Symbol {
            name: self.name@,
            kind: self.kind,
            signature: self.signature@,
            params: self.params@.map_values(|t: AbiType| t@),
            returns: abi_of(self.returns),
            generic: self.generic,
            is_macro: self.is_macro,
        }
    }
}

/// The text in which `{:?}` shows a string, quotes and escapes included.
pub uninterp spec fn quoted_text(s: Seq<char>) -> Seq<char>;

/// Whether `s` is made of ASCII letters, digits and underscores, as the names in source text are.
pub open spec fn is_word(s: Seq<char>) -> bool {
    forall|i: int|
        0 <= i < s.len() ==> 'a' <= #[trigger] s[i] <= 'z' || 'A' <= s[i] <= 'Z' || '0' <= s[i]
            <= '9' || s[i] == '_'
}

/// How a name is shown in the structure of a type: a word between quotes, anything else as `{:?}`
/// shows it.
pub open spec fn name_debug(s: Seq<char>) -> Seq<char> {
    if is_word(s) {
        "\""@ + s + "\""@
    } else {
        quoted_text(s)
    }
}

/// Shows `s` as `{:?}` does.
///
/// Trusted: the standard library's `Debug` implementation of `str`, called through `format!`. The
/// contract claims that the result depends on the characters of `s` alone, and that a word, of
/// which nothing is escaped, comes out between quotes; how other characters are escaped is left
/// unsaid.
#[verifier::external_body]
fn quoted(s: &str) -> (r: String)
    ensures
        r@ == quoted_text(s@),
        is_word(s@) ==> r@ == "\""@ + s@ + "\""@,
{
    format!("{:?}", s)
}

/// The H# spelling of `ty`.
pub open spec fn source_text(ty: TypeExpr) -> Seq<char>
    decreases ty, 0nat,
{
    match ty {
        TypeExpr::Named(name) => name@,
        TypeExpr::Generic(name, args) => name@ + "<"@ + text::joined(
            source_texts(args@, args@.len()),
            ", "@,
        ) + ">"@,
        TypeExpr::Array(t) => "["@ + source_text(*t) + "]"@,
        TypeExpr::Slice(t, None) => "&["@ + source_text(*t) + "]"@,
        TypeExpr::Slice(t, Some(n)) => "["@ + source_text(*t) + "; "@ + text::decimal_text(n as nat)
            + "]"@,
        TypeExpr::Tuple(items) => "("@ + text::joined(source_texts(items@, items@.len()), ", "@)
            + ")"@,
        TypeExpr::Fn(params, ret) => "fn("@ + text::joined(
            source_texts(params@, params@.len()),
            ", "@,
        ) + ") -> "@ + source_text(*ret),
        TypeExpr::Optional(t) => source_text(*t) + "?"@,
        TypeExpr::Ref(t) => "&"@ + source_text(*t),
        TypeExpr::RefMut(t) => "&mut "@ + source_text(*t),
        TypeExpr::Void => "void"@,
        TypeExpr::I8 => "i8"@,
        TypeExpr::I16 => "i16"@,
        TypeExpr::I32 => "i32"@,
        TypeExpr::I64 => "i64"@,
        TypeExpr::I128 => "i128"@,
        TypeExpr::U8 => "u8"@,
        TypeExpr::U16 => "u16"@,
        TypeExpr::U32 => "u32"@,
        TypeExpr::U64 => "u64"@,
        TypeExpr::U128 => "u128"@,
        TypeExpr::F32 => "f32"@,
        TypeExpr::F64 => "f64"@,
        TypeExpr::Bool => "bool"@,
        TypeExpr::String => "string"@,
        TypeExpr::Bytes => "bytes"@,
    }
}

/// The H# spellings of the first `n` types of `tys`.
pub open spec fn source_texts(tys: Seq<TypeExpr>, n: nat) -> Seq<Seq<char>>
    decreases tys, n,
{
    if n == 0 || n > tys.len() {
        Seq::empty()
    } else {
        source_texts(tys, (n - 1) as nat).push(source_text(tys[n - 1]))
    }
}

/// The form in which `{:?}` shows `ty`: its constructor with its arguments.
pub open spec fn debug_text(ty: TypeExpr) -> Seq<char>
    decreases ty, 0nat,
{
    match ty {
        TypeExpr::Named(name) => "Named("@ + name_debug(name@) + ")"@,
        TypeExpr::Generic(name, args) => "Generic("@ + name_debug(name@) + ", ["@ + text::joined(
            debug_texts(args@, args@.len()),
            ", "@,
        ) + "])"@,
        TypeExpr::Array(t) => "Array("@ + debug_text(*t) + ")"@,
        TypeExpr::Slice(t, None) => "Slice("@ + debug_text(*t) + ", None)"@,
        TypeExpr::Slice(t, Some(n)) => "Slice("@ + debug_text(*t) + ", Some("@ + text::decimal_text(
            n as nat,
        ) + "))"@,
        TypeExpr::Tuple(items) => "Tuple(["@ + text::joined(
            debug_texts(items@, items@.len()),
            ", "@,
        ) + "])"@,
        TypeExpr::Fn(params, ret) => "Fn(["@ + text::joined(
            debug_texts(params@, params@.len()),
            ", "@,
        ) + "], "@ + debug_text(*ret) + ")"@,
        TypeExpr::Optional(t) => "Optional("@ + debug_text(*t) + ")"@,
        TypeExpr::Ref(t) => "Ref("@ + debug_text(*t) + ")"@,
        TypeExpr::RefMut(t) => "RefMut("@ + debug_text(*t) + ")"@,
        TypeExpr::Void => "Void"@,
        TypeExpr::I8 => "I8"@,
        TypeExpr::I16 => "I16"@,
        TypeExpr::I32 => "I32"@,
        TypeExpr::I64 => "I64"@,
        TypeExpr::I128 => "I128"@,
        TypeExpr::U8 => "U8"@,
        TypeExpr::U16 => "U16"@,
        TypeExpr::U32 => "U32"@,
        TypeExpr::U64 => "U64"@,
        TypeExpr::U128 => "U128"@,
        TypeExpr::F32 => "F32"@,
        TypeExpr::F64 => "F64"@,
        TypeExpr::Bool => "Bool"@,
        TypeExpr::String => "String"@,
        TypeExpr::Bytes => "Bytes"@,
    }
}

/// The `{:?}` forms of the first `n` types of `tys`.
pub open spec fn debug_texts(tys: Seq<TypeExpr>, n: nat) -> Seq<Seq<char>>
    decreases tys, n,
{
    if n == 0 || n > tys.len() {
        Seq::empty()
    } else {
        debug_texts(tys, (n - 1) as nat).push(debug_text(tys[n - 1]))
    }
}

/// The name under which a type travels as an opaque handle.
pub open spec fn display_text(ty: TypeExpr) -> Seq<char> {
    match ty {
        TypeExpr::Named(name) => name@,
        TypeExpr::I128 => "i128"@,
        TypeExpr::U128 => "u128"@,
        _ => debug_text(ty),
    }
}

/// The ABI type of `ty`, if it has one that every consumer agrees on.
pub open spec fn lowered(ty: TypeExpr) -> Option<Abi> {
    match ty {
        TypeExpr::I8 => Some(Abi::I8),
        TypeExpr::I16 => Some(Abi::I16),
        TypeExpr::I32 => Some(Abi::I32),
        TypeExpr::I64 => Some(Abi::I64),
        TypeExpr::U8 => Some(Abi::U8),
        TypeExpr::U16 => Some(Abi::U16),
        TypeExpr::U32 => Some(Abi::U32),
        TypeExpr::U64 => Some(Abi::U64),
        TypeExpr::F32 => Some(Abi::F32),
        TypeExpr::F64 => Some(Abi::F64),
        TypeExpr::Bool => Some(Abi::Bool),
        TypeExpr::Void => Some(Abi::Void),
        TypeExpr::String => Some(Abi::Ptr),
        TypeExpr::Bytes => Some(Abi::Ptr),
        TypeExpr::I128 => Some(Abi::Opaque("i128"@)),
        TypeExpr::U128 => Some(Abi::Opaque("u128"@)),
        TypeExpr::Named(name) => Some(Abi::Opaque(name@)),
        _ => None,
    }
}

/// The ABI type of a parameter: its own, or an opaque handle.
pub open spec fn lowered_param(ty: TypeExpr) -> Abi {
    match lowered(ty) {
        Some(abi) => abi,
        None => Abi::Opaque(display_text(ty)),
    }
}

pub open spec fn lowered_option(ty: Option<TypeExpr>) -> Option<Abi> {
    match ty {
        Some(t) => lowered(t),
        None => None,
    }
}

/// `name: type`, in H# spelling.
pub open spec fn param_text(p: Param) -> Seq<char> {
    p.name@ + ": "@ + source_text(p.ty)
}

/// The declaration of a function, in H# spelling.
pub open spec fn signature_text(
    name: Seq<char>,
    params: Seq<Param>,
    ret: Option<TypeExpr>,
) -> Seq<char> {
    let head = "fn "@ + name + "("@ + text::joined(params.map_values(|p: Param| param_text(p)), ", "@)
        + ")"@;
    match ret {
        Some(r) => head + " -> "@ + source_text(r),
        None => head,
    }
}

/// Renders `ty` in H# spelling.
pub fn type_expr_source(ty: &TypeExpr) -> (r: String)
    ensures
        r@ == source_text(*ty),
    decreases *ty, 0nat,
{
    match ty {
        TypeExpr::Named(name) => name.clone(),
        TypeExpr::Generic(name, args) => {
            let inner: String = type_list_source(args);
            let mut r: String = name.clone();
            r.append("<");
            r.append(inner.as_str());
            r.append(">");
            r
        },
        TypeExpr::Array(t) => text::concat3("[", type_expr_source(t).as_str(), "]"),
        TypeExpr::Slice(t, None) => text::concat3("&[", type_expr_source(t).as_str(), "]"),
        TypeExpr::Slice(t, Some(n)) => {
            let mut r: String = text::concat3("[", type_expr_source(t).as_str(), "; ");
            r.append(text::decimal(*n as u64).as_str());
            r.append("]");
            r
        },
        TypeExpr::Tuple(items) => text::concat3("(", type_list_source(items).as_str(), ")"),
        TypeExpr::Fn(params, ret) => {
            let mut r: String = text::concat3("fn(", type_list_source(params).as_str(), ") -> ");
            r.append(type_expr_source(ret).as_str());
            r
        },
        TypeExpr::Optional(t) => {
            let mut r: String = type_expr_source(t);
            r.append("?");
            r
        },
        TypeExpr::Ref(t) => {
            let mut r: String = "&".to_owned();
            r.append(type_expr_source(t).as_str());
            r
        },
        TypeExpr::RefMut(t) => {
            let mut r: String = "&mut ".to_owned();
            r.append(type_expr_source(t).as_str());
            r
        },
        TypeExpr::Void => "void".to_owned(),
        TypeExpr::I8 => "i8".to_owned(),
        TypeExpr::I16 => "i16".to_owned(),
        TypeExpr::I32 => "i32".to_owned(),
        TypeExpr::I64 => "i64".to_owned(),
        TypeExpr::I128 => "i128".to_owned(),
        TypeExpr::U8 => "u8".to_owned(),
        TypeExpr::U16 => "u16".to_owned(),
        TypeExpr::U32 => "u32".to_owned(),
        TypeExpr::U64 => "u64".to_owned(),
        TypeExpr::U128 => "u128".to_owned(),
        TypeExpr::F32 => "f32".to_owned(),
        TypeExpr::F64 => "f64".to_owned(),
        TypeExpr::Bool => "bool".to_owned(),
        TypeExpr::String => "string".to_owned(),
        TypeExpr::Bytes => "bytes".to_owned(),
    }
}

/// Renders `tys` in H# spelling, separated by commas.
fn type_list_source(tys: &Vec<TypeExpr>) -> (r: String)
    ensures
        r@ == text::joined(source_texts(tys@, tys@.len()), ", "@),
    decreases tys@, tys@.len(),
{
    let mut parts: Vec<String> = Vec::new();
    let mut i: usize = 0;
    assert(text::texts(parts@) =~= source_texts(tys@, 0));
    while i < tys.len()
        invariant
            i <= tys@.len(),
            text::texts(parts@) == source_texts(tys@, i as nat),
        decreases tys@.len() - i,
    {
        let ghost before = text::texts(parts@);
        let part: String = type_expr_source(&tys[i]);
        parts.push(part);
        i = i + 1;
        assert(text::texts(parts@) =~= before.push(source_text(tys@[i - 1])));
    }
    text::join(&parts, ", ")
}

/// Renders `ty` as its constructor with its arguments.
fn type_expr_debug(ty: &TypeExpr) -> (r: String)
    ensures
        r@ == debug_text(*ty),
    decreases *ty, 0nat,
{
    match ty {
        TypeExpr::Named(name) => text::concat3("Named(", quoted(name.as_str()).as_str(), ")"),
        TypeExpr::Generic(name, args) => {
            let mut r: String = text::concat3("Generic(", quoted(name.as_str()).as_str(), ", [");
            r.append(type_list_debug(args).as_str());
            r.append("])");
            r
        },
        TypeExpr::Array(t) => text::concat3("Array(", type_expr_debug(t).as_str(), ")"),
        TypeExpr::Slice(t, None) => text::concat3("Slice(", type_expr_debug(t).as_str(), ", None)"),
        TypeExpr::Slice(t, Some(n)) => {
            let mut r: String = text::concat3("Slice(", type_expr_debug(t).as_str(), ", Some(");
            r.append(text::decimal(*n as u64).as_str());
            r.append("))");
            r
        },
        TypeExpr::Tuple(items) => text::concat3("Tuple([", type_list_debug(items).as_str(), "])"),
        TypeExpr::Fn(params, ret) => {
            let mut r: String = text::concat3("Fn([", type_list_debug(params).as_str(), "], ");
            r.append(type_expr_debug(ret).as_str());
            r.append(")");
            r
        },
        TypeExpr::Optional(t) => text::concat3("Optional(", type_expr_debug(t).as_str(), ")"),
        TypeExpr::Ref(t) => text::concat3("Ref(", type_expr_debug(t).as_str(), ")"),
        TypeExpr::RefMut(t) => text::concat3("RefMut(", type_expr_debug(t).as_str(), ")"),
        TypeExpr::Void => "Void".to_owned(),
        TypeExpr::I8 => "I8".to_owned(),
        TypeExpr::I16 => "I16".to_owned(),
        TypeExpr::I32 => "I32".to_owned(),
        TypeExpr::I64 => "I64".to_owned(),
        TypeExpr::I128 => "I128".to_owned(),
        TypeExpr::U8 => "U8".to_owned(),
        TypeExpr::U16 => "U16".to_owned(),
        TypeExpr::U32 => "U32".to_owned(),
        TypeExpr::U64 => "U64".to_owned(),
        TypeExpr::U128 => "U128".to_owned(),
        TypeExpr::F32 => "F32".to_owned(),
        TypeExpr::F64 => "F64".to_owned(),
        TypeExpr::Bool => "Bool".to_owned(),
        TypeExpr::String => "String".to_owned(),
        TypeExpr::Bytes => "Bytes".to_owned(),
    }
}

/// Renders each of `tys` as its constructor with its arguments, separated by commas.
fn type_list_debug(tys: &Vec<TypeExpr>) -> (r: String)
    ensures
        r@ == text::joined(debug_texts(tys@, tys@.len()), ", "@),
    decreases tys@, tys@.len(),
{
    let mut parts: Vec<String> = Vec::new();
    let mut i: usize = 0;
    assert(text::texts(parts@) =~= debug_texts(tys@, 0));
    while i < tys.len()
        invariant
            i <= tys@.len(),
            text::texts(parts@) == debug_texts(tys@, i as nat),
        decreases tys@.len() - i,
    {
        let ghost before = text::texts(parts@);
        let part: String = type_expr_debug(&tys[i]);
        parts.push(part);
        i = i + 1;
        assert(text::texts(parts@) =~= before.push(debug_text(tys@[i - 1])));
    }
    text::join(&parts, ", ")
}

/// The name under which `ty` travels as an opaque handle.
pub fn type_expr_display(ty: &TypeExpr) -> (r: String)
    ensures
        r@ == display_text(*ty),
{
    match ty {
        TypeExpr::Named(name) => name.clone(),
        TypeExpr::I128 => "i128".to_owned(),
        TypeExpr::U128 => "u128".to_owned(),
        _ => type_expr_debug(ty),
    }
}

/// Lowers `ty` to the ABI type that every consumer agrees on, if there is one.
pub fn lower_type_expr(ty: &TypeExpr) -> (r: Option<AbiType>)
    ensures
        abi_of(r) == lowered(*ty),
{
    match ty {
        TypeExpr::I8 => Some(AbiType::I8),
        TypeExpr::I16 => Some(AbiType::I16),
        TypeExpr::I32 => Some(AbiType::I32),
        TypeExpr::I64 => Some(AbiType::I64),
        TypeExpr::U8 => Some(AbiType::U8),
        TypeExpr::U16 => Some(AbiType::U16),
        TypeExpr::U32 => Some(AbiType::U32),
        TypeExpr::U64 => Some(AbiType::U64),
        TypeExpr::F32 => Some(AbiType::F32),
        TypeExpr::F64 => Some(AbiType::F64),
        TypeExpr::Bool => Some(AbiType::Bool),
        TypeExpr::Void => Some(AbiType::Void),
        TypeExpr::String => Some(AbiType::Ptr),
        TypeExpr::Bytes => Some(AbiType::Ptr),
        TypeExpr::I128 => Some(AbiType::Opaque { struct_name: type_expr_display(ty) }),
        TypeExpr::U128 => Some(AbiType::Opaque { struct_name: type_expr_display(ty) }),
        TypeExpr::Named(name) => Some(AbiType::Opaque { struct_name: name.clone() }),
        TypeExpr::Generic(_, _) => None,
        TypeExpr::Array(_) => None,
        TypeExpr::Slice(_, _) => None,
        TypeExpr::Tuple(_) => None,
        TypeExpr::Fn(_, _) => None,
        TypeExpr::Optional(_) => None,
        TypeExpr::Ref(_) => None,
        TypeExpr::RefMut(_) => None,
    }
}

/// Lowers the type of a parameter; what has no ABI type of its own becomes an opaque handle.
pub fn lower_param_type(p: &Param) -> (r: AbiType)
    ensures
        r@ == lowered_param(p.ty),
{
    match lower_type_expr(&p.ty) {
        Some(abi) => abi,
        None => AbiType::Opaque { struct_name: type_expr_display(&p.ty) },
    }
}

/// Lowers a type that may be missing.
fn lower_type_option(ty: &Option<TypeExpr>) -> (r: Option<AbiType>)
    ensures
        abi_of(r) == lowered_option(*ty),
{
    match ty {
        Some(t) => lower_type_expr(t),
        None => None,
    }
}

/// Renders the declaration of a function in H# spelling.
pub fn render_fn_signature(name: &str, params: &Vec<Param>, ret: &Option<TypeExpr>) -> (r: String)
    ensures
        r@ == signature_text(name@, params@, *ret),
{
    let mut parts: Vec<String> = Vec::new();
    let mut i: usize = 0;
    let ghost all = params@.map_values(|p: Param| param_text(p));
    assert(text::texts(parts@) =~= all.take(0));
    while i < params.len()
        invariant
            i <= params@.len(),
            all == params@.map_values(|p: Param| param_text(p)),
            text::texts(parts@) == all.take(i as int),
        decreases params@.len() - i,
    {
        let ghost before = text::texts(parts@);
        let ty: String = type_expr_source(&params[i].ty);
        parts.push(text::concat3(params[i].name.as_str(), ": ", ty.as_str()));
        i = i + 1;
        assert(text::texts(parts@) =~= before.push(param_text(params@[i - 1])));
        assert(all.take(i as int) =~= before.push(param_text(params@[i - 1])));
    }
    assert(all.take(params@.len() as int) =~= all);
    let mut r: String = text::concat3("fn ", name, "(");
    r.append(text::join(&parts, ", ").as_str());
    r.append(")");
    if let Some(t) = ret {
        r.append(" -> ");
        r.append(type_expr_source(t).as_str());
    }
    r
}

/// Whether a variant carries values.
pub open spec fn carries_values(v: EnumVariant) -> bool {
    v.fields is Tuple || v.fields is Struct
}

/// The declaration of an enum, in H# spelling.
pub open spec fn enum_text(name: Seq<char>, variants: Seq<EnumVariant>) -> Seq<char> {
    "enum "@ + name + " { "@ + text::joined(variants.map_values(|v: EnumVariant| v.name@), ", "@)
        + " }"@
}

/// A symbol without parameters.
pub open spec fn plain_symbol(
    name: Seq<char>,
    kind: ExportedSymbolKind,
    signature: Seq<char>,
    result: Option<Abi>,
    generic: bool,
) -> Symbol {
    Symbol { name, kind, signature, params: Seq::empty(), returns: result, generic, is_macro: false }
}

/// The symbol that `item` itself exports: a `pub` function, struct, enum, trait, constant or type
/// alias has one.
pub open spec fn item_symbol(item: Item) -> Option<Symbol> {
    match item {
        Item::FnDef(f) => if f.pub_ {
            Some(
                Symbol {
                    name: f.name@,
                    kind: ExportedSymbolKind::Function,
                    signature: signature_text(f.name@, f.params@, f.return_type),
                    params: f.params@.map_values(|p: Param| lowered_param(p.ty)),
                    returns: lowered_option(f.return_type),
                    generic: f.type_params@.len() > 0,
                    is_macro: false,
                },
            )
        } else {
            None
        },
        Item::StructDef(s) => if s.pub_ {
            Some(
                plain_symbol(
                    s.name@,
                    ExportedSymbolKind::Struct,
                    "struct "@ + s.name@,
                    None,
                    s.type_params@.len() > 0,
                ),
            )
        } else {
            None
        },
        Item::EnumDef(e) => if e.pub_ {
            Some(
                plain_symbol(
                    e.name@,
                    ExportedSymbolKind::Enum,
                    enum_text(e.name@, e.variants@),
                    None,
                    e.type_params@.len() > 0 || exists|i: int|
                        0 <= i < e.variants@.len() && carries_values(#[trigger] e.variants@[i]),
                ),
            )
        } else {
            None
        },
        Item::TraitDef(t) => if t.pub_ {
            Some(
                plain_symbol(t.name@, ExportedSymbolKind::Trait, "trait "@ + t.name@, None, true),
            )
        } else {
            None
        },
        Item::ConstDef { name, ty, pub_, .. } => if pub_ {
            Some(
                plain_symbol(
                    name@,
                    ExportedSymbolKind::Const,
                    "const "@ + name@,
                    lowered_option(ty),
                    lowered_option(ty) is None,
                ),
            )
        } else {
            None
        },
        Item::TypeAlias { name, pub_, .. } => if pub_ {
            Some(
                plain_symbol(
                    name@,
                    ExportedSymbolKind::TypeAlias,
                    "type "@ + name@,
                    None,
                    false,
                ),
            )
        } else {
            None
        },
        _ => None,
    }
}

/// The items that the first `n` of `items` export, in order: those with a symbol of their own, and
/// in place of a `pub` module with known items what these export.
pub open spec fn exported_items(items: Seq<Item>, n: nat) -> Seq<Item>
    decreases items, n,
{
    if n == 0 || n > items.len() {
        Seq::empty()
    } else {
        exported_items(items, (n - 1) as nat) + match items[n - 1] {
            Item::ModDecl { inline: Some(inner), pub_, .. } => if pub_ {
                exported_items(inner@, inner@.len())
            } else {
                Seq::empty()
            },
            item => if item_symbol(item) is Some {
                seq![item]
            } else {
                Seq::empty()
            },
        }
    }
}

/// The symbols of the exported items, in the same order.
pub open spec fn exported_symbols(items: Seq<Item>, n: nat) -> Seq<Symbol> {
    exported_items(items, n).map_values(|item: Item| item_symbol(item)->0)
}

/// Result of walking a module for its exports.
pub struct ExportSummary<'a> {
    pub symbols: Vec<ExportedSymbol>,
    /// The items behind the symbols, for the AST artifact.
    pub pub_items: Vec<&'a Item>,
}

impl<'a> ExportSummary<'a> {
    pub open spec fn symbol_views(&self) -> Seq<Symbol> {
        self.symbols@.map_values(|s: ExportedSymbol| s@)
    }

    pub open spec fn item_views(&self) -> Seq<Item> {
        self.pub_items@.map_values(|item: &'a Item| *item)
    }

    /// The summary holds what the first `n` of `items` export.
    pub open spec fn covers(&self, items: Seq<Item>, n: nat) -> bool {
        &&& self.symbol_views() == exported_symbols(items, n)
        &&& self.item_views() == exported_items(items, n)
    }
}

/// Builds a symbol without parameters.
fn make_plain_symbol(
    name: &String,
    kind: ExportedSymbolKind,
    signature: String,
    result: Option<AbiType>,
    generic: bool,
) -> (r: ExportedSymbol)
    ensures
        r@ == plain_symbol(name@, kind, signature@, abi_of(result), generic),
{
    let r = ExportedSymbol {
        name: name.clone(),
        kind,
        signature,
        params: Vec::new(),
        returns: result,
        generic,
        is_macro: false,
    };
    assert(r@.params =~= Seq::<Abi>::empty());
    r
}

/// `word` and `name`, one behind the other.
fn labelled(word: &str, name: &String) -> (r: String)
    ensures
        r@ == word@ + name@,
{
    let mut r: String = word.to_owned();
    r.append(name.as_str());
    r
}

/// Lowers the types of `params`.
fn lower_params(params: &Vec<Param>) -> (r: Vec<AbiType>)
    ensures
        r@.map_values(|t: AbiType| t@) == params@.map_values(|p: Param| lowered_param(p.ty)),
{
    let mut r: Vec<AbiType> = Vec::new();
    let mut i: usize = 0;
    while i < params.len()
        invariant
            i <= params@.len(),
            r@.len() == i,
            forall|k: int| 0 <= k < i ==> (#[trigger] r@[k])@ == lowered_param(params@[k].ty),
        decreases params@.len() - i,
    {
        r.push(lower_param_type(&params[i]));
        i = i + 1;
    }
    assert(r@.map_values(|t: AbiType| t@) =~= params@.map_values(
        |p: Param| lowered_param(p.ty),
    ));
    r
}

/// Renders the declaration of an enum in H# spelling.
fn render_enum(name: &String, variants: &Vec<EnumVariant>) -> (r: String)
    ensures
        r@ == enum_text(name@, variants@),
{
    let mut parts: Vec<String> = Vec::new();
    let mut i: usize = 0;
    while i < variants.len()
        invariant
            i <= variants@.len(),
            parts@.len() == i,
            forall|k: int| 0 <= k < i ==> (#[trigger] parts@[k])@ == variants@[k].name@,
        decreases variants@.len() - i,
    {
        parts.push(variants[i].name.clone());
        i = i + 1;
    }
    assert(text::texts(parts@) =~= variants@.map_values(|v: EnumVariant| v.name@));
    let mut r: String = text::concat3("enum ", name.as_str(), " { ");
    r.append(text::join(&parts, ", ").as_str());
    r.append(" }");
    r
}

/// Whether one of `variants` carries values.
fn any_carries_values(variants: &Vec<EnumVariant>) -> (r: bool)
    ensures
        r == exists|i: int| 0 <= i < variants@.len() && carries_values(#[trigger] variants@[i]),
{
    let mut i: usize = 0;
    while i < variants.len()
        invariant
            i <= variants@.len(),
            forall|k: int| 0 <= k < i ==> !carries_values(#[trigger] variants@[k]),
        decreases variants@.len() - i,
    {
        match &variants[i].fields {
            EnumVariantFields::Unit => {},
            _ => {
                assert(carries_values(variants@[i as int]));
                return true;
            },
        }
        i = i + 1;
    }
    false
}

/// The symbol that `item` itself exports.
pub fn export_symbol(item: &Item) -> (r: Option<ExportedSymbol>)
    ensures
        r is Some <==> item_symbol(*item) is Some,
        r matches Some(symbol) ==> item_symbol(*item) == Some(symbol@),
{
    match item {
        Item::FnDef(f) => {
            if f.pub_ {
                let symbol = ExportedSymbol {
                    name: f.name.clone(),
                    kind: ExportedSymbolKind::Function,
                    signature: render_fn_signature(f.name.as_str(), &f.params, &f.return_type),
                    params: lower_params(&f.params),
                    returns: lower_type_option(&f.return_type),
                    generic: f.type_params.len() > 0,
                    is_macro: false,
                };
                Some(symbol)
            } else {
                None
            }
        },
        Item::StructDef(s) => {
            if s.pub_ {
                Some(
                    make_plain_symbol(
                        &s.name,
                        ExportedSymbolKind::Struct,
                        labelled("struct ", &s.name),
                        None,
                        s.type_params.len() > 0,
                    ),
                )
            } else {
                None
            }
        },
        Item::EnumDef(e) => {
            if e.pub_ {
                let signature: String = render_enum(&e.name, &e.variants);
                let generic: bool = e.type_params.len() > 0 || any_carries_values(&e.variants);
                Some(
                    make_plain_symbol(
                        &e.name,
                        ExportedSymbolKind::Enum,
                        signature,
                        None,
                        generic,
                    ),
                )
            } else {
                None
            }
        },
        Item::TraitDef(t) => {
            if t.pub_ {
                Some(
                    make_plain_symbol(
                        &t.name,
                        ExportedSymbolKind::Trait,
                        labelled("trait ", &t.name),
                        None,
                        true,
                    ),
                )
            } else {
                None
            }
        },
        Item::ConstDef { name, ty, pub_, .. } => {
            if *pub_ {
                let result = lower_type_option(ty);
                let generic: bool = result.is_none();
                Some(
                    make_plain_symbol(
                        name,
                        ExportedSymbolKind::Const,
                        labelled("const ", name),
                        result,
                        generic,
                    ),
                )
            } else {
                None
            }
        },
        Item::TypeAlias { name, pub_, .. } => {
            if *pub_ {
                Some(
                    make_plain_symbol(
                        name,
                        ExportedSymbolKind::TypeAlias,
                        labelled("type ", name),
                        None,
                        false,
                    ),
                )
            } else {
                None
            }
        },
        _ => None,
    }
}

/// Appends to `out` what `items` export: what was collected before stays in front, and the symbols
/// and the items grow by the same number.
pub fn walk_items<'a>(items: &'a Vec<Item>, out: &mut ExportSummary<'a>)
    ensures
        final(out).symbol_views() == old(out).symbol_views() + exported_symbols(
            items@,
            items@.len(),
        ),
        final(out).item_views() == old(out).item_views() + exported_items(items@, items@.len()),
        old(out).symbol_views().is_prefix_of(final(out).symbol_views()),
        old(out).item_views().is_prefix_of(final(out).item_views()),
        final(out).symbols@.len() - old(out).symbols@.len() == final(out).pub_items@.len() - old(
            out,
        ).pub_items@.len(),
    decreases items@,
{
    let ghost symbols = out.symbol_views();
    let ghost walked = out.item_views();
    let mut i: usize = 0;
    assert(symbols + exported_symbols(items@, 0) =~= symbols);
    assert(walked + exported_items(items@, 0) =~= walked);
    while i < items.len()
        invariant
            i <= items@.len(),
            out.symbol_views() == symbols + exported_symbols(items@, i as nat),
            out.item_views() == walked + exported_items(items@, i as nat),
        decreases items@.len() - i,
    {
        let ghost symbols_before = out.symbol_views();
        let ghost items_before = out.item_views();
        let item: &'a Item = &items[i];
        if let Item::ModDecl { inline: Some(inner), pub_, .. } = item {
            if *pub_ {
                walk_items(inner, out);
            }
        } else if let Some(symbol) = export_symbol(item) {
            out.symbols.push(symbol);
            out.pub_items.push(item);
            proof {
                assert(out.symbol_views() =~= symbols_before.push(symbol@));
                assert(out.item_views() =~= items_before.push(*item));
            }
        }
        i = i + 1;
        proof {
            assert(out.item_views() =~= walked + exported_items(items@, i as nat));
            assert(out.symbol_views() =~= symbols + exported_symbols(items@, i as nat));
        }
    }
}

/// Collects what `module` exports: every `pub` function, struct, enum, trait, constant and type
/// alias, those of its `pub` modules included.
pub fn summarize_exports<'a>(module: &'a Module) -> (r: ExportSummary<'a>)
    ensures
        r.covers(module.items@, module.items@.len()),
{
    let mut summary = ExportSummary { symbols: Vec::new(), pub_items: Vec::new() };
    walk_items(&module.items, &mut summary);
    proof {
        assert(summary.symbol_views() =~= exported_symbols(module.items@, module.items@.len()));
        assert(summary.item_views() =~= exported_items(module.items@, module.items@.len()));
    }
    summary
}

/// Whether an item is marked `pub`.
pub open spec fn is_pub(item: Item) -> bool {
    match item {
        Item::FnDef(f) => f.pub_,
        Item::StructDef(s) => s.pub_,
        Item::EnumDef(e) => e.pub_,
        Item::TraitDef(t) => t.pub_,
        Item::ConstDef { pub_, .. } => pub_,
        Item::TypeAlias { pub_, .. } => pub_,
        Item::ModDecl { pub_, .. } => pub_,
        Item::ImplBlock(_) => false,
        Item::Other => false,
    }
}

/// Every exported item is `pub` and has a symbol, and the symbols stand in the order of the items.
pub proof fn law_symbols_match_items(items: Seq<Item>, n: nat, i: int)
    requires
        0 <= i < exported_items(items, n).len(),
    ensures
        exported_symbols(items, n).len() == exported_items(items, n).len(),
        is_pub(exported_items(items, n)[i]),
        item_symbol(exported_items(items, n)[i]) == Some(exported_symbols(items, n)[i]),
    decreases items, n,
{
    let before = exported_items(items, (n - 1) as nat);
    if i < before.len() {
        law_symbols_match_items(items, (n - 1) as nat, i);
    } else {
        match items[n - 1] {
            Item::ModDecl { inline: Some(inner), pub_, .. } => {
                if pub_ {
                    law_symbols_match_items(inner@, inner@.len(), i - before.len());
                }
            },
            _ => {},
        }
    }
}

/// What stands behind the first `n` items does not change what they export.
proof fn lemma_exports_of_prefix(a: Seq<Item>, b: Seq<Item>, n: nat)
    requires
        n <= a.len(),
    ensures
        exported_items(a + b, n) == exported_items(a, n),
    decreases n,
{
    if n > 0 {
        lemma_exports_of_prefix(a, b, (n - 1) as nat);
        assert((a + b)[n - 1] == a[n - 1]);
    }
}

proof fn lemma_exports_of_concat(a: Seq<Item>, b: Seq<Item>, n: nat)
    requires
        n <= b.len(),
    ensures
        exported_items(a + b, a.len() + n) == exported_items(a, a.len()) + exported_items(b, n),
    decreases n,
{
    if n == 0 {
        lemma_exports_of_prefix(a, b, a.len());
    } else {
        lemma_exports_of_concat(a, b, (n - 1) as nat);
        assert((a + b)[a.len() + n - 1] == b[n - 1]);
    }
    assert(exported_items(a + b, a.len() + n) =~= exported_items(a, a.len()) + exported_items(
        b,
        n,
    ));
}

/// Two lists of items, one behind the other, export what the first exports and then what the second
/// exports, as many symbols as items.
pub proof fn law_exports_of_concatenation(a: Seq<Item>, b: Seq<Item>)
    ensures
        exported_items(a + b, (a + b).len()) == exported_items(a, a.len()) + exported_items(
            b,
            b.len(),
        ),
        exported_symbols(a + b, (a + b).len()) == exported_symbols(a, a.len()) + exported_symbols(
            b,
            b.len(),
        ),
        exported_symbols(b, b.len()).len() == exported_items(b, b.len()).len(),
{
    lemma_exports_of_concat(a, b, b.len());
    assert(exported_symbols(a + b, (a + b).len()) =~= exported_symbols(a, a.len())
        + exported_symbols(b, b.len()));
}

/// Walking `a` and then `b` is walking both at once, whatever was collected before: the symbols and
/// the items that were there stay in front, and both grow by the same number.
pub proof fn law_walks_compose(
    symbols: Seq<Symbol>,
    items: Seq<Item>,
    a: Seq<Item>,
    b: Seq<Item>,
)
    ensures
        symbols + exported_symbols(a + b, (a + b).len()) == (symbols + exported_symbols(
            a,
            a.len(),
        )) + exported_symbols(b, b.len()),
        items + exported_items(a + b, (a + b).len()) == (items + exported_items(a, a.len()))
            + exported_items(b, b.len()),
        symbols.is_prefix_of(symbols + exported_symbols(a + b, (a + b).len())),
        items.is_prefix_of(items + exported_items(a + b, (a + b).len())),
        exported_symbols(a + b, (a + b).len()).len() == exported_items(a + b, (a + b).len()).len(),
{
    law_exports_of_concatenation(a, b);
    assert(symbols + exported_symbols(a + b, (a + b).len()) =~= (symbols + exported_symbols(
        a,
        a.len(),
    )) + exported_symbols(b, b.len()));
    assert(items + exported_items(a + b, (a + b).len()) =~= (items + exported_items(a, a.len()))
        + exported_items(b, b.len()));
}

/// What the list exports in front of an item, what the item exports, and what is exported behind it.
proof fn lemma_exports_around(items: Seq<Item>, k: int)
    requires
        0 <= k < items.len(),
    ensures
        ({
            let front = items.take(k);
            let one = seq![items[k]];
            let back = items.skip(k + 1);
            &&& exported_items(items, items.len()) == exported_items(front, front.len())
                + exported_items(one, 1) + exported_items(back, back.len())
            &&& exported_symbols(items, items.len()) == exported_symbols(front, front.len())
                + exported_symbols(one, 1) + exported_symbols(back, back.len())
        }),
{
    let front = items.take(k);
    let one = seq![items[k]];
    let back = items.skip(k + 1);
    assert(items =~= front + one + back);
    law_exports_of_concatenation(front, one);
    law_exports_of_concatenation(front + one, back);
}

/// An item that is not `pub` exports nothing, wherever it stands, and neither does an `impl` block.
pub proof fn law_private_items_are_skipped(items: Seq<Item>, k: int)
    requires
        0 <= k < items.len(),
        !is_pub(items[k]),
    ensures
        exported_items(items, items.len()) == exported_items(items.remove(k), items.remove(k).len()),
        exported_symbols(items, items.len()) == exported_symbols(
            items.remove(k),
            items.remove(k).len(),
        ),
{
    let front = items.take(k);
    let one = seq![items[k]];
    let back = items.skip(k + 1);
    lemma_exports_around(items, k);
    assert(exported_items(one, 0) == Seq::<Item>::empty());
    assert(exported_items(one, 1) =~= Seq::empty());
    assert(items.remove(k) =~= front + back);
    law_exports_of_concatenation(front, back);
    assert(exported_items(items, items.len()) =~= exported_items(
        items.remove(k),
        items.remove(k).len(),
    ));
}

/// A `pub` module with known items exports what these export, wherever it stands, without a symbol
/// of its own.
pub proof fn law_pub_modules_are_flattened(items: Seq<Item>, k: int)
    requires
        0 <= k < items.len(),
        is_pub(items[k]),
    ensures
        items[k] matches Item::ModDecl { inline: Some(inner), .. } ==> {
            let front = items.take(k);
            let back = items.skip(k + 1);
            &&& exported_items(items, items.len()) == exported_items(front, front.len())
                + exported_items(inner@, inner@.len()) + exported_items(back, back.len())
            &&& exported_symbols(items, items.len()) == exported_symbols(front, front.len())
                + exported_symbols(inner@, inner@.len()) + exported_symbols(back, back.len())
        },
{
    let one = seq![items[k]];
    lemma_exports_around(items, k);
    assert(exported_items(one, 0) == Seq::<Item>::empty());
    if let Item::ModDecl { inline: Some(inner), .. } = items[k] {
        assert(exported_items(one, 1) =~= exported_items(inner@, inner@.len()));
    }
}

/// A module whose items are not known exports nothing, wherever it stands.
pub proof fn law_unknown_modules_are_skipped(items: Seq<Item>, k: int)
    requires
        0 <= k < items.len(),
        items[k] matches Item::ModDecl { inline, .. } && inline is None,
    ensures
        exported_items(items, items.len()) == exported_items(items.remove(k), items.remove(k).len()),
        exported_symbols(items, items.len()) == exported_symbols(
            items.remove(k),
            items.remove(k).len(),
        ),
{
    let front = items.take(k);
    let one = seq![items[k]];
    let back = items.skip(k + 1);
    lemma_exports_around(items, k);
    assert(exported_items(one, 0) == Seq::<Item>::empty());
    assert(exported_items(one, 1) =~= Seq::empty());
    assert(items.remove(k) =~= front + back);
    law_exports_of_concatenation(front, back);
    assert(exported_items(items, items.len()) =~= exported_items(
        items.remove(k),
        items.remove(k).len(),
    ));
}

/// Every other `pub` item exports one symbol, wherever it stands.
pub proof fn law_pub_items_are_exported(items: Seq<Item>, k: int)
    requires
        0 <= k < items.len(),
        is_pub(items[k]),
        !(items[k] is ModDecl),
    ensures
        item_symbol(items[k]) is Some,
        ({
            let front = items.take(k);
            let back = items.skip(k + 1);
            &&& exported_items(items, items.len()) == exported_items(front, front.len()).push(
                items[k],
            ) + exported_items(back, back.len())
            &&& exported_symbols(items, items.len()) == exported_symbols(front, front.len()).push(
                item_symbol(items[k])->0,
            ) + exported_symbols(back, back.len())
        }),
{
    let front = items.take(k);
    let one = seq![items[k]];
    lemma_exports_around(items, k);
    assert(exported_items(one, 0) == Seq::<Item>::empty());
    assert(exported_items(one, 1) =~= one);
    assert(exported_symbols(one, 1) =~= seq![item_symbol(items[k])->0]);
    assert(exported_items(front, front.len()) + one =~= exported_items(front, front.len()).push(
        items[k],
    ));
    assert(exported_symbols(front, front.len()) + exported_symbols(one, 1) =~= exported_symbols(
        front,
        front.len(),
    ).push(item_symbol(items[k])->0));
}

/// No export is a macro, and every trait serves by its source alone.
pub proof fn law_symbol_flags(item: Item)
    ensures
        item_symbol(item) matches Some(symbol) ==> {
            &&& !symbol.is_macro
            &&& symbol.kind == ExportedSymbolKind::Trait ==> symbol.generic
            &&& symbol.kind != ExportedSymbolKind::Function ==> symbol.params.len() == 0
        },
{
}

/// Exactly the generics, arrays, slices, tuples, functions, optionals and references have no ABI
/// type of their own; as parameters they travel as opaque handles.
pub proof fn law_lowering_is_total_but_for_compounds(ty: TypeExpr)
    ensures
        lowered(ty) is None <==> (ty is Generic || ty is Array || ty is Slice || ty is Tuple
            || ty is Fn || ty is Optional || ty is Ref || ty is RefMut),
        lowered(ty) is None ==> lowered_param(ty) == Abi::Opaque(debug_text(ty)),
        lowered(ty) is Some ==> Some(lowered_param(ty)) == lowered(ty),
{
}

} // verus!
