use hsharp::ast::{
    EnumDef, EnumVariant, EnumVariantFields, FnDef, ImplBlock, Item, Module, Param, StructDef,
    TraitDef, TypeExpr,
};
use hsharp::export::{
    export_symbol, lower_param_type, lower_type_expr, render_fn_signature, summarize_exports,
    type_expr_display, type_expr_source, walk_items, ExportSummary, ExportedSymbol,
};
use hsharp::hlib_cmd::count_exports;

fn named(name: &str) -> TypeExpr {
    TypeExpr::Named(name.to_string())
}

fn param(name: &str, ty: TypeExpr) -> Param {
    Param { name: name.to_string(), ty }
}

fn func(name: &str, type_params: &[&str], params: Vec<Param>, ret: Option<TypeExpr>, pub_: bool) -> Item {
    Item::FnDef(FnDef {
        name: name.to_string(),
        type_params: type_params.iter().map(|t| t.to_string()).collect(),
        params,
        return_type: ret,
        body: Vec::new(),
        pub_,
    })
}

fn enum_of(name: &str, variants: Vec<(&str, EnumVariantFields)>, pub_: bool) -> Item {
    Item::EnumDef(EnumDef {
        name: name.to_string(),
        type_params: Vec::new(),
        variants: variants
            .into_iter()
            .map(|(name, fields)| EnumVariant { name: name.to_string(), fields })
            .collect(),
        pub_,
    })
}

fn struct_of(name: &str, type_params: &[&str], pub_: bool) -> Item {
    Item::StructDef(StructDef {
        name: name.to_string(),
        type_params: type_params.iter().map(|t| t.to_string()).collect(),
        fields: Vec::new(),
        pub_,
    })
}

fn shown(s: &ExportedSymbol) -> String {
    format!(
        "{:?} {} | {} | {:?} -> {:?} generic={} macro={}",
        s.kind, s.name, s.signature, s.params, s.returns, s.generic, s.is_macro
    )
}

#[test]
fn functions_are_exported_with_their_signature() {
    let item = func("add", &[], vec![param("a", TypeExpr::I32), param("b", named("Foo"))], Some(TypeExpr::Bool), true);
    let s = export_symbol(&item).unwrap();
    assert_eq!(
        shown(&s),
        "Function add | fn add(a: i32, b: Foo) -> bool | [I32, Opaque { struct_name: \"Foo\" }] -> Some(Bool) generic=false macro=false"
    );
}

#[test]
fn generic_functions_need_their_source() {
    let s = export_symbol(&func("id", &["T"], vec![param("x", named("T"))], None, true)).unwrap();
    assert!(s.generic);
    assert_eq!(s.signature, "fn id(x: T)");
    assert!(s.returns.is_none());
}

#[test]
fn structs_and_traits_are_exported_by_name() {
    let s = export_symbol(&struct_of("Point", &[], true)).unwrap();
    assert_eq!(shown(&s), "Struct Point | struct Point | [] -> None generic=false macro=false");
    assert!(export_symbol(&struct_of("Box", &["T"], true)).unwrap().generic);
    let t = export_symbol(&Item::TraitDef(TraitDef { name: "Show".to_string(), pub_: true })).unwrap();
    assert_eq!(shown(&t), "Trait Show | trait Show | [] -> None generic=true macro=false");
}

#[test]
fn enums_with_values_need_their_source() {
    let plain = enum_of("Color", vec![("Red", EnumVariantFields::Unit), ("Blue", EnumVariantFields::Unit)], true);
    let s = export_symbol(&plain).unwrap();
    assert_eq!(shown(&s), "Enum Color | enum Color { Red, Blue } | [] -> None generic=false macro=false");
    let tuple = enum_of("Opt", vec![("No", EnumVariantFields::Unit), ("Yes", EnumVariantFields::Tuple(vec![TypeExpr::I64]))], true);
    assert!(export_symbol(&tuple).unwrap().generic);
    let fields = enum_of("Shape", vec![("Dot", EnumVariantFields::Struct(Vec::new()))], true);
    assert!(export_symbol(&fields).unwrap().generic);
    let none = enum_of("Never", Vec::new(), true);
    assert_eq!(export_symbol(&none).unwrap().signature, "enum Never {  }");
}

#[test]
fn constants_without_an_abi_type_need_their_source() {
    let typed = Item::ConstDef { name: "MAX".to_string(), ty: Some(TypeExpr::U16), value: None, pub_: true };
    let s = export_symbol(&typed).unwrap();
    assert_eq!(shown(&s), "Const MAX | const MAX | [] -> Some(U16) generic=false macro=false");
    let untyped = Item::ConstDef { name: "N".to_string(), ty: None, value: None, pub_: true };
    let s = export_symbol(&untyped).unwrap();
    assert!(s.generic && s.returns.is_none());
    let array = Item::ConstDef {
        name: "A".to_string(),
        ty: Some(TypeExpr::Array(Box::new(TypeExpr::I8))),
        value: None,
        pub_: true,
    };
    assert!(export_symbol(&array).unwrap().generic);
}

#[test]
fn aliases_are_exported_by_name() {
    let alias = Item::TypeAlias { name: "Id".to_string(), aliased: TypeExpr::I64, pub_: true };
    assert_eq!(
        shown(&export_symbol(&alias).unwrap()),
        "TypeAlias Id | type Id | [] -> None generic=false macro=false"
    );
}

#[test]
fn private_items_are_not_exported() {
    let module = Module {
        items: vec![
            func("f", &[], Vec::new(), None, false),
            struct_of("S", &[], false),
            enum_of("E", Vec::new(), false),
            Item::TraitDef(TraitDef { name: "T".to_string(), pub_: false }),
            Item::ConstDef { name: "C".to_string(), ty: None, value: None, pub_: false },
            Item::TypeAlias { name: "A".to_string(), aliased: TypeExpr::I64, pub_: false },
            Item::ImplBlock(ImplBlock { target: "S".to_string(), methods: Vec::new() }),
            Item::ModDecl {
                name: "m".to_string(),
                inline: Some(vec![func("g", &[], Vec::new(), None, true)]),
                pub_: false,
            },
            Item::ModDecl { name: "n".to_string(), inline: None, pub_: true },
            Item::Other,
        ],
    };
    let summary = summarize_exports(&module);
    assert!(summary.symbols.is_empty());
    assert!(summary.pub_items.is_empty());
}

#[test]
fn pub_modules_are_flattened_in_order() {
    let module = Module {
        items: vec![
            func("a", &[], Vec::new(), None, true),
            Item::ModDecl {
                name: "m".to_string(),
                inline: Some(vec![
                    func("b", &["T"], Vec::new(), None, true),
                    func("hidden", &[], Vec::new(), None, false),
                    Item::ModDecl {
                        name: "n".to_string(),
                        inline: Some(vec![struct_of("C", &[], true)]),
                        pub_: true,
                    },
                ]),
                pub_: true,
            },
            func("d", &[], Vec::new(), None, true),
        ],
    };
    let summary = summarize_exports(&module);
    let names: Vec<&str> = summary.symbols.iter().map(|s| s.name.as_str()).collect();
    assert_eq!(names, vec!["a", "b", "C", "d"]);
    assert_eq!(summary.pub_items.len(), 4);
    for (item, symbol) in summary.pub_items.iter().zip(summary.symbols.iter()) {
        assert_eq!(shown(&export_symbol(item).unwrap()), shown(symbol));
    }
    let counts = count_exports(&summary);
    assert_eq!((counts.symbols, counts.generic, counts.items), (4, 1, 4));
}

#[test]
fn lists_of_items_are_exported_one_behind_the_other() {
    let a = || vec![func("a", &[], Vec::new(), None, true), func("x", &[], Vec::new(), None, false)];
    let b = || vec![struct_of("B", &[], true)];
    let names = |items: Vec<Item>| {
        let module = Module { items };
        let summary = summarize_exports(&module);
        assert_eq!(summary.symbols.len(), summary.pub_items.len());
        summary.symbols.iter().map(|s| s.name.clone()).collect::<Vec<_>>()
    };
    let both: Vec<Item> = a().into_iter().chain(b()).collect();
    assert_eq!(names(both), [names(a()), names(b())].concat());
}

#[test]
fn walking_two_lists_is_walking_both() {
    let a = vec![func("a", &[], Vec::new(), None, true), func("x", &[], Vec::new(), None, false)];
    let b = vec![struct_of("B", &[], true), func("c", &["T"], Vec::new(), None, true)];
    let mut out = ExportSummary { symbols: Vec::new(), pub_items: Vec::new() };
    walk_items(&a, &mut out);
    assert_eq!((out.symbols.len(), out.pub_items.len()), (1, 1));
    walk_items(&b, &mut out);
    let names: Vec<&str> = out.symbols.iter().map(|s| s.name.as_str()).collect();
    assert_eq!(names, vec!["a", "B", "c"]);
    assert_eq!(out.pub_items.len(), 3);
}

#[test]
fn scalars_have_abi_types() {
    let lowered: Vec<String> = [
        TypeExpr::I8, TypeExpr::I16, TypeExpr::I32, TypeExpr::I64, TypeExpr::I128, TypeExpr::U8,
        TypeExpr::U16, TypeExpr::U32, TypeExpr::U64, TypeExpr::U128, TypeExpr::F32, TypeExpr::F64,
        TypeExpr::Bool, TypeExpr::Void, TypeExpr::String, TypeExpr::Bytes,
    ]
    .iter()
    .map(|t| format!("{:?}", lower_type_expr(t).unwrap()))
    .collect();
    assert_eq!(
        lowered,
        vec![
            "I8", "I16", "I32", "I64", "Opaque { struct_name: \"i128\" }", "U8", "U16", "U32", "U64",
            "Opaque { struct_name: \"u128\" }", "F32", "F64", "Bool", "Void", "Ptr", "Ptr",
        ]
    );
}

#[test]
fn compound_types_have_none() {
    let inner = || Box::new(TypeExpr::I8);
    for ty in [
        TypeExpr::Generic("List".to_string(), vec![TypeExpr::I8]),
        TypeExpr::Array(inner()),
        TypeExpr::Slice(inner(), None),
        TypeExpr::Tuple(vec![TypeExpr::I8]),
        TypeExpr::Fn(vec![TypeExpr::I8], inner()),
        TypeExpr::Optional(inner()),
        TypeExpr::Ref(inner()),
        TypeExpr::RefMut(inner()),
    ] {
        assert!(lower_type_expr(&ty).is_none());
    }
}

#[test]
fn parameters_without_an_abi_type_are_opaque() {
    let p = param("xs", TypeExpr::Array(Box::new(named("Foo"))));
    assert_eq!(format!("{:?}", lower_param_type(&p)), "Opaque { struct_name: \"Array(Named(\\\"Foo\\\"))\" }");
}

#[test]
fn displayed_types_fall_back_to_their_structure() {
    assert_eq!(type_expr_display(&named("Foo")), "Foo");
    assert_eq!(type_expr_display(&TypeExpr::I128), "i128");
    assert_eq!(type_expr_display(&TypeExpr::U128), "u128");
    for ty in [
        TypeExpr::Array(Box::new(named("a\"b\n"))),
        TypeExpr::Generic("Map".to_string(), vec![TypeExpr::String, named("V")]),
        TypeExpr::Slice(Box::new(TypeExpr::U8), Some(16)),
        TypeExpr::Slice(Box::new(TypeExpr::U8), None),
        TypeExpr::Tuple(Vec::new()),
        TypeExpr::Fn(vec![TypeExpr::F32, TypeExpr::Bool], Box::new(TypeExpr::Void)),
        TypeExpr::Optional(Box::new(TypeExpr::Ref(Box::new(TypeExpr::RefMut(Box::new(TypeExpr::Bytes)))))),
    ] {
        assert_eq!(type_expr_display(&ty), format!("{:?}", ty));
    }
}

#[test]
fn types_are_written_as_source() {
    let cases: Vec<(TypeExpr, &str)> = vec![
        (named("Foo"), "Foo"),
        (TypeExpr::Generic("Map".to_string(), vec![TypeExpr::String, TypeExpr::I32]), "Map<string, i32>"),
        (TypeExpr::Array(Box::new(TypeExpr::U8)), "[u8]"),
        (TypeExpr::Slice(Box::new(TypeExpr::U8), Some(4)), "[u8; 4]"),
        (TypeExpr::Slice(Box::new(TypeExpr::U8), None), "&[u8]"),
        (TypeExpr::Tuple(vec![TypeExpr::Bool, TypeExpr::F64]), "(bool, f64)"),
        (TypeExpr::Fn(vec![TypeExpr::I64], Box::new(TypeExpr::Void)), "fn(i64) -> void"),
        (TypeExpr::Optional(Box::new(TypeExpr::Bytes)), "bytes?"),
        (TypeExpr::Ref(Box::new(named("T"))), "&T"),
        (TypeExpr::RefMut(Box::new(named("T"))), "&mut T"),
    ];
    for (ty, text) in cases {
        assert_eq!(type_expr_source(&ty), text);
    }
}

#[test]
fn signatures_list_parameters_and_the_result() {
    assert_eq!(render_fn_signature("f", &Vec::new(), &None), "fn f()");
    assert_eq!(
        render_fn_signature("g", &vec![param("x", TypeExpr::Ref(Box::new(named("T"))))], &Some(TypeExpr::String)),
        "fn g(x: &T) -> string"
    );
}
