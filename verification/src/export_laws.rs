//! What the symbol of each kind of item says of the item, and how types are written and lowered.

use vstd::prelude::*;

use crate::ast::{
    EnumDef, EnumVariant, EnumVariantFields, FnDef, Item, Param, StructDef, TraitDef, TypeExpr,
};
use crate::export;
use crate::export::{Abi, ExportedSymbolKind};
use crate::text;

verus! {

/// A function is exported if and only if it is `pub`. Its symbol has its name, one ABI type for each
/// parameter in order and that of its result, and is generic if and only if the function declares
/// a type parameter, however many there are.
pub proof fn law_function_symbols(f: FnDef)
    ensures
        export::item_symbol(Item::FnDef(f)) is Some <==> f.pub_,
        export::item_symbol(Item::FnDef(f)) matches Some(s) ==> {
            &&& s.name == f.name@
            &&& s.kind == ExportedSymbolKind::Function
            &&& s.generic <==> f.type_params@.len() >= 1
            &&& !s.is_macro
            &&& s.params.len() == f.params@.len()
            &&& forall|i: int|
                0 <= i < f.params@.len() ==> #[trigger] s.params[i] == export::lowered_param(
                    f.params@[i].ty,
                )
            &&& f.return_type is None ==> s.returns is None
            &&& f.return_type matches Some(ty) ==> s.returns == export::lowered(ty)
            &&& s.signature == export::signature_text(f.name@, f.params@, f.return_type)
        },
{
}

/// A struct is exported by its name, as it is written, if and only if it is `pub`, and is generic if
/// and only if it declares a type parameter.
pub proof fn law_struct_symbols(d: StructDef)
    ensures
        export::item_symbol(Item::StructDef(d)) is Some <==> d.pub_,
        export::item_symbol(Item::StructDef(d)) matches Some(s) ==> {
            &&& s.name == d.name@
            &&& s.kind == ExportedSymbolKind::Struct
            &&& s.signature == "struct "@ + d.name@
            &&& s.generic <==> d.type_params@.len() != 0
            &&& s.params.len() == 0 && s.returns is None && !s.is_macro
        },
{
}

/// An enum is exported with the names of its variants if and only if it is `pub`, and is generic if
/// and only if it declares a type parameter or one of its variants carries values.
pub proof fn law_enum_symbols(d: EnumDef)
    ensures
        export::item_symbol(Item::EnumDef(d)) is Some <==> d.pub_,
        export::item_symbol(Item::EnumDef(d)) matches Some(s) ==> {
            &&& s.name == d.name@
            &&& s.kind == ExportedSymbolKind::Enum
            &&& s.signature == "enum "@ + d.name@ + " { "@ + text::joined(
                Seq::new(d.variants@.len(), |i: int| d.variants@[i].name@),
                ", "@,
            ) + " }"@
            &&& s.generic <==> d.type_params@.len() != 0 || exists|i: int|
                0 <= i < d.variants@.len() && !((#[trigger] d.variants@[i]).fields
                    is Unit)
            &&& s.params.len() == 0 && s.returns is None && !s.is_macro
        },
{
    assert(Seq::new(d.variants@.len(), |i: int| d.variants@[i].name@) =~= d.variants@.map_values(
        |v: EnumVariant| v.name@,
    ));
    if exists|i: int| 0 <= i < d.variants@.len() && !((#[trigger] d.variants@[i]).fields is Unit) {
        let i = choose|i: int|
            0 <= i < d.variants@.len() && !((#[trigger] d.variants@[i]).fields is Unit);
        assert(export::carries_values(d.variants@[i]));
    }
}

/// A trait is exported if and only if it is `pub`, and always serves by its source alone.
pub proof fn law_trait_symbols(d: TraitDef)
    ensures
        export::item_symbol(Item::TraitDef(d)) is Some <==> d.pub_,
        export::item_symbol(Item::TraitDef(d)) matches Some(s) ==> {
            &&& s.name == d.name@
            &&& s.kind == ExportedSymbolKind::Trait
            &&& s.signature == "trait "@ + d.name@
            &&& s.generic
            &&& s.params.len() == 0 && s.returns is None && !s.is_macro
        },
{
}

/// A constant is exported if and only if it is `pub`; it is generic if and only if it has no type
/// that can be lowered.
pub proof fn law_const_symbols(item: Item)
    ensures
        item matches Item::ConstDef { name, ty, pub_, .. } ==> {
            let symbol = export::item_symbol(item);
            &&& symbol is Some <==> pub_
            &&& symbol matches Some(s) ==> {
                &&& s.name == name@
                &&& s.kind == ExportedSymbolKind::Const
                &&& s.signature == "const "@ + name@
                &&& ty is None ==> s.returns is None
                &&& ty matches Some(t) ==> s.returns == export::lowered(t)
                &&& s.generic <==> s.returns is None
                &&& s.params.len() == 0 && !s.is_macro
            }
        },
{
}

/// A type alias is exported if and only if it is `pub`, and needs no source.
pub proof fn law_alias_symbols(item: Item)
    ensures
        item matches Item::TypeAlias { name, pub_, .. } ==> {
            let symbol = export::item_symbol(item);
            &&& symbol is Some <==> pub_
            &&& symbol matches Some(s) ==> {
                &&& s.name == name@
                &&& s.kind == ExportedSymbolKind::TypeAlias
                &&& s.signature == "type "@ + name@
                &&& !s.generic
                &&& s.params.len() == 0 && s.returns is None && !s.is_macro
            }
        },
        item is ImplBlock || item is ModDecl || item is Other ==> export::item_symbol(item) is None,
{
}

/// A signature is the name, the parameters in order, each with its type, and the result if there is
/// one.
pub proof fn law_signatures(name: Seq<char>, params: Seq<Param>, ret: Option<TypeExpr>)
    ensures
        ({
            let list = text::joined(
                Seq::new(
                    params.len(),
                    |i: int| params[i].name@ + ": "@ + export::source_text(params[i].ty),
                ),
                ", "@,
            );
            let s = export::signature_text(name, params, ret);
            &&& ret is None ==> s == "fn "@ + name + "("@ + list + ")"@
            &&& ret matches Some(ty) ==> s == "fn "@ + name + "("@ + list + ")"@ + " -> "@
                + export::source_text(ty)
        }),
{
    assert(Seq::new(
        params.len(),
        |i: int| params[i].name@ + ": "@ + export::source_text(params[i].ty),
    ) =~= params.map_values(|p: Param| export::param_text(p)));
}

/// Numbers keep their width and their sign, truth values and nothing stay what they are, strings and
/// bytes cross as a pointer, and the wide integers and the named types as handles of their name.
pub proof fn law_lowering(ty: TypeExpr)
    ensures
        ty is I8 ==> export::lowered(ty) == Some(Abi::I8),
        ty is I16 ==> export::lowered(ty) == Some(Abi::I16),
        ty is I32 ==> export::lowered(ty) == Some(Abi::I32),
        ty is I64 ==> export::lowered(ty) == Some(Abi::I64),
        ty is U8 ==> export::lowered(ty) == Some(Abi::U8),
        ty is U16 ==> export::lowered(ty) == Some(Abi::U16),
        ty is U32 ==> export::lowered(ty) == Some(Abi::U32),
        ty is U64 ==> export::lowered(ty) == Some(Abi::U64),
        ty is F32 ==> export::lowered(ty) == Some(Abi::F32),
        ty is F64 ==> export::lowered(ty) == Some(Abi::F64),
        ty is Bool ==> export::lowered(ty) == Some(Abi::Bool),
        ty is Void ==> export::lowered(ty) == Some(Abi::Void),
        ty is String || ty is Bytes ==> export::lowered(ty) == Some(Abi::Ptr),
        ty is I128 ==> export::lowered(ty) == Some(Abi::Opaque("i128"@)),
        ty is U128 ==> export::lowered(ty) == Some(Abi::Opaque("u128"@)),
        ty matches TypeExpr::Named(name) ==> export::lowered(ty) == Some(Abi::Opaque(name@)),
{
}

/// The texts of the types of a list are those of its types, in order.
pub proof fn law_type_lists(tys: Seq<TypeExpr>, n: nat)
    requires
        n <= tys.len(),
    ensures
        export::source_texts(tys, n) == Seq::new(n, |i: int| export::source_text(tys[i])),
        export::debug_texts(tys, n) == Seq::new(n, |i: int| export::debug_text(tys[i])),
    decreases n,
{
    if n > 0 {
        law_type_lists(tys, (n - 1) as nat);
    }
    assert(export::source_texts(tys, n) =~= Seq::new(n, |i: int| export::source_text(tys[i])));
    assert(export::debug_texts(tys, n) =~= Seq::new(n, |i: int| export::debug_text(tys[i])));
}

/// The H# spelling of a list of types.
pub open spec fn source_list(tys: Seq<TypeExpr>) -> Seq<char> {
    text::joined(Seq::new(tys.len(), |i: int| export::source_text(tys[i])), ", "@)
}

/// The structure of a list of types.
pub open spec fn debug_list(tys: Seq<TypeExpr>) -> Seq<char> {
    text::joined(Seq::new(tys.len(), |i: int| export::debug_text(tys[i])), ", "@)
}

/// A compound type is spelled from the spellings of its parts.
pub proof fn law_spelling_of_compounds(ty: TypeExpr)
    ensures
        ty matches TypeExpr::Generic(name, args) ==> export::source_text(ty) == name@ + "<"@
            + source_list(args@) + ">"@,
        ty matches TypeExpr::Array(t) ==> export::source_text(ty) == "["@ + export::source_text(*t)
            + "]"@,
        ty matches TypeExpr::Slice(t, len) ==> {
            &&& len is None ==> export::source_text(ty) == "&["@ + export::source_text(*t) + "]"@
            &&& len matches Some(n) ==> export::source_text(ty) == "["@ + export::source_text(*t)
                + "; "@ + text::decimal_text(n as nat) + "]"@
        },
        ty matches TypeExpr::Tuple(items) ==> export::source_text(ty) == "("@ + source_list(items@)
            + ")"@,
        ty matches TypeExpr::Fn(params, ret) ==> export::source_text(ty) == "fn("@ + source_list(
            params@,
        ) + ") -> "@ + export::source_text(*ret),
        ty matches TypeExpr::Optional(t) ==> export::source_text(ty) == export::source_text(*t)
            + "?"@,
        ty matches TypeExpr::Ref(t) ==> export::source_text(ty) == "&"@ + export::source_text(*t),
        ty matches TypeExpr::RefMut(t) ==> export::source_text(ty) == "&mut "@
            + export::source_text(*t),
{
    match ty {
        TypeExpr::Generic(_, args) => law_type_lists(args@, args@.len()),
        TypeExpr::Tuple(items) => law_type_lists(items@, items@.len()),
        TypeExpr::Fn(params, _) => law_type_lists(params@, params@.len()),
        _ => {},
    }
}

/// A simple type is spelled by its name.
pub proof fn law_spelling_of_simple_types(ty: TypeExpr)
    ensures
        ty matches TypeExpr::Named(name) ==> export::source_text(ty) == name@,
        ty is Void ==> export::source_text(ty) == "void"@,
        ty is I8 ==> export::source_text(ty) == "i8"@,
        ty is I16 ==> export::source_text(ty) == "i16"@,
        ty is I32 ==> export::source_text(ty) == "i32"@,
        ty is I64 ==> export::source_text(ty) == "i64"@,
        ty is I128 ==> export::source_text(ty) == "i128"@,
        ty is U8 ==> export::source_text(ty) == "u8"@,
        ty is U16 ==> export::source_text(ty) == "u16"@,
        ty is U32 ==> export::source_text(ty) == "u32"@,
        ty is U64 ==> export::source_text(ty) == "u64"@,
        ty is U128 ==> export::source_text(ty) == "u128"@,
        ty is F32 ==> export::source_text(ty) == "f32"@,
        ty is F64 ==> export::source_text(ty) == "f64"@,
        ty is Bool ==> export::source_text(ty) == "bool"@,
        ty is String ==> export::source_text(ty) == "string"@,
        ty is Bytes ==> export::source_text(ty) == "bytes"@,
{
}

/// The structure of a compound type is its constructor with the structures of its parts.
pub proof fn law_structure_of_compounds(ty: TypeExpr)
    ensures
        ty matches TypeExpr::Named(name) ==> export::debug_text(ty) == "Named("@
            + export::name_debug(name@) + ")"@,
        ty matches TypeExpr::Generic(name, args) ==> export::debug_text(ty) == "Generic("@
            + export::name_debug(name@) + ", ["@ + debug_list(args@) + "])"@,
        ty matches TypeExpr::Array(t) ==> export::debug_text(ty) == "Array("@ + export::debug_text(
            *t,
        ) + ")"@,
        ty matches TypeExpr::Slice(t, len) ==> {
            &&& len is None ==> export::debug_text(ty) == "Slice("@ + export::debug_text(*t)
                + ", None)"@
            &&& len matches Some(n) ==> export::debug_text(ty) == "Slice("@ + export::debug_text(*t)
                + ", Some("@ + text::decimal_text(n as nat) + "))"@
        },
        ty matches TypeExpr::Tuple(items) ==> export::debug_text(ty) == "Tuple(["@ + debug_list(
            items@,
        ) + "])"@,
        ty matches TypeExpr::Fn(params, ret) ==> export::debug_text(ty) == "Fn(["@ + debug_list(
            params@,
        ) + "], "@ + export::debug_text(*ret) + ")"@,
        ty matches TypeExpr::Optional(t) ==> export::debug_text(ty) == "Optional("@
            + export::debug_text(*t) + ")"@,
        ty matches TypeExpr::Ref(t) ==> export::debug_text(ty) == "Ref("@ + export::debug_text(*t)
            + ")"@,
        ty matches TypeExpr::RefMut(t) ==> export::debug_text(ty) == "RefMut("@
            + export::debug_text(*t) + ")"@,
{
    match ty {
        TypeExpr::Generic(_, args) => law_type_lists(args@, args@.len()),
        TypeExpr::Tuple(items) => law_type_lists(items@, items@.len()),
        TypeExpr::Fn(params, _) => law_type_lists(params@, params@.len()),
        _ => {},
    }
}

/// The structure of a simple type is its constructor.
pub proof fn law_structure_of_simple_types(ty: TypeExpr)
    ensures
        ty is Void ==> export::debug_text(ty) == "Void"@,
        ty is I8 ==> export::debug_text(ty) == "I8"@,
        ty is I16 ==> export::debug_text(ty) == "I16"@,
        ty is I32 ==> export::debug_text(ty) == "I32"@,
        ty is I64 ==> export::debug_text(ty) == "I64"@,
        ty is I128 ==> export::debug_text(ty) == "I128"@,
        ty is U8 ==> export::debug_text(ty) == "U8"@,
        ty is U16 ==> export::debug_text(ty) == "U16"@,
        ty is U32 ==> export::debug_text(ty) == "U32"@,
        ty is U64 ==> export::debug_text(ty) == "U64"@,
        ty is U128 ==> export::debug_text(ty) == "U128"@,
        ty is F32 ==> export::debug_text(ty) == "F32"@,
        ty is F64 ==> export::debug_text(ty) == "F64"@,
        ty is Bool ==> export::debug_text(ty) == "Bool"@,
        ty is String ==> export::debug_text(ty) == "String"@,
        ty is Bytes ==> export::debug_text(ty) == "Bytes"@,
{
}

/// A name and the wide integers are displayed as they are spelled, any other type by its structure;
/// a parameter without an ABI type is a handle of that text.
pub proof fn law_display(ty: TypeExpr)
    ensures
        ty is Named || ty is I128 || ty is U128 ==> export::display_text(ty) == export::source_text(
            ty,
        ),
        !(ty is Named || ty is I128 || ty is U128) ==> export::display_text(ty)
            == export::debug_text(ty),
        export::lowered(ty) is None ==> export::lowered_param(ty) == Abi::Opaque(
            export::debug_text(ty),
        ),
        export::lowered(ty) matches Some(abi) ==> export::lowered_param(ty) == abi,
{
}

/// A variant carries values unless it is a bare name.
pub proof fn law_variants(v: EnumVariant)
    ensures
        export::carries_values(v) <==> !(v.fields is Unit),
        v.fields matches EnumVariantFields::Tuple(_) ==> export::carries_values(v),
        v.fields matches EnumVariantFields::Struct(_) ==> export::carries_values(v),
{
}

} // verus!
