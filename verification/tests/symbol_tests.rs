use langc::ast::{EnumDef, EnumVariant, ErrorDef, ErrorVariant, FnDef, FnParam, InterfaceDef, Span, StructDef, Type, Visibility};
use langc::cmd::symbol::{
    GlobalSymbol, SymbolInfo, SymbolKind, collect_symbols, filter_symbols, format_enum_info, format_error_info, format_fn_info,
    format_interface_info, format_struct_info, format_type, symbol_table_lines,
};

fn fn_def(name: &str, params: Vec<Type>, ret: Type, vis: Visibility) -> FnDef {
    FnDef {
        name: name.to_string(),
        visibility: vis,
        params: params
            .into_iter()
            .enumerate()
            .map(|(i, ty)| FnParam { name: format!("p{}", i), ty })
            .collect(),
        return_ty: ret,
        body: vec![],
        generic_params: vec![],
        generic_constraints: vec![],
        span: Span::default(),
    }
}

fn struct_def(name: &str, generic_params: Vec<&str>) -> StructDef {
    StructDef {
        name: name.to_string(),
        fields: vec![],
        methods: vec![],
        interface_impls: vec![],
        visibility: Visibility::Public,
        generic_params: generic_params.into_iter().map(|s| s.to_string()).collect(),
        span: Span::default(),
    }
}

fn custom(name: &str, args: Vec<Type>) -> Type {
    Type::Custom { name: name.to_string(), generic_args: args, is_exported: false }
}

fn symbol(name: &str, kind: SymbolKind) -> SymbolInfo {
    SymbolInfo {
        name: name.to_string(),
        kind,
        visibility: Visibility::Private,
        type_info: String::new(),
        location: String::new(),
    }
}

#[test]
fn symbol_kinds_parse_case_insensitively() {
    assert_eq!(SymbolKind::from_str("FN"), Some(SymbolKind::Function));
    assert_eq!(SymbolKind::from_str("Function"), Some(SymbolKind::Function));
    assert_eq!(SymbolKind::from_str("Struct"), Some(SymbolKind::Struct));
    assert_eq!(SymbolKind::from_str("ALL"), Some(SymbolKind::All));
    assert_eq!(SymbolKind::from_str("const"), Some(SymbolKind::Const));
    assert_eq!(SymbolKind::from_str("xyz"), None);
}

#[test]
fn symbol_kind_display_names() {
    assert_eq!(SymbolKind::Interface.display_name(), "interface");
    assert_eq!(SymbolKind::Function.display_name(), "function");
    assert_eq!(SymbolKind::Error.display_name(), "error");
}

#[test]
fn type_texts() {
    assert_eq!(format_type(&Type::Pointer(Box::new(Type::I32))), "*i32");
    assert_eq!(format_type(&Type::Option(Box::new(Type::U8))), "?u8");
    assert_eq!(format_type(&Type::Tuple(vec![Type::I64, Type::Bool])), "(i64, bool)");
    assert_eq!(format_type(&custom("Vec", vec![Type::I32])), "Vec<i32>");
    assert_eq!(format_type(&custom("Point", vec![])), "Point");
    assert_eq!(format_type(&Type::Array { size: Some(3), element_type: Box::new(Type::U8) }), "[3]u8");
    assert_eq!(format_type(&Type::Array { size: None, element_type: Box::new(Type::U8) }), "[]u8");
    assert_eq!(format_type(&Type::Result(Box::new(Type::I64))), "i64!");
    assert_eq!(
        format_type(&Type::Function { params: vec![Type::I64, Type::I64], return_type: Box::new(Type::I64) }),
        "fn(i64, i64) i64"
    );
    assert_eq!(format_type(&Type::RawPtr), "rawptr");
    assert_eq!(format_type(&Type::SelfType), "Self");
    assert_eq!(format_type(&Type::ImmFloat), "ImmFloat");
    assert_eq!(format_type(&Type::GenericParam("T".to_string())), "T");
    assert_eq!(format_type(&Type::Error), "error");
}

#[test]
fn declaration_infos() {
    assert_eq!(format_struct_info(&struct_def("Pair", vec!["T", "U"])), "<T, U>");
    assert_eq!(format_struct_info(&struct_def("Point", vec![])), "");
    let e = EnumDef {
        name: "Status".to_string(),
        variants: vec![
            EnumVariant { name: "Todo".to_string(), associated_types: vec![], visibility: Visibility::Public },
            EnumVariant { name: "Done".to_string(), associated_types: vec![], visibility: Visibility::Public },
        ],
        methods: vec![],
        visibility: Visibility::Public,
        generic_params: vec![],
        span: Span::default(),
    };
    assert_eq!(format_enum_info(&e), "{ Todo, Done }");
    let err = ErrorDef {
        name: "IoError".to_string(),
        variants: vec![ErrorVariant { name: "NotFound".to_string(), associated_types: vec![], visibility: Visibility::Public }],
        visibility: Visibility::Public,
        span: Span::default(),
    };
    assert_eq!(format_error_info(&err), "{ NotFound }");
    let i = InterfaceDef {
        name: "Shape".to_string(),
        methods: vec![fn_def("area", vec![], Type::F64, Visibility::Public), fn_def("name", vec![], Type::Void, Visibility::Public)],
        composed_interfaces: vec![],
        visibility: Visibility::Public,
        span: Span::default(),
    };
    assert_eq!(format_interface_info(&i), "{ area, name }");
    assert_eq!(format_fn_info(&fn_def("f", vec![Type::I64, Type::Bool], Type::Void, Visibility::Public)), "(i64, bool) -> void");
}

#[test]
fn symbols_are_collected_in_declaration_kind_order() {
    let structs = vec![("Point".to_string(), struct_def("Point", vec![]))];
    let functions = vec![("main".to_string(), fn_def("main", vec![], Type::Void, Visibility::Private))];
    let globals = vec![
        GlobalSymbol { name: "LIMIT".to_string(), ty: Type::I64, visibility: Visibility::Public, is_const: true },
        GlobalSymbol { name: "counter".to_string(), ty: Type::I64, visibility: Visibility::Public, is_const: false },
        GlobalSymbol { name: "helper".to_string(), ty: Type::Function { params: vec![], return_type: Box::new(Type::Void) }, visibility: Visibility::Public, is_const: true },
    ];
    let symbols = collect_symbols(&structs, &vec![], &vec![], &vec![], &functions, &globals);
    let names: Vec<&str> = symbols.iter().map(|s| s.name.as_str()).collect();
    assert_eq!(names, vec!["Point", "main", "LIMIT"]);
    assert_eq!(symbols[0].kind, SymbolKind::Struct);
    assert_eq!(symbols[0].location, "struct definition");
    assert_eq!(symbols[1].type_info, "() -> void");
    assert_eq!(symbols[1].location, "function definition");
    assert_eq!(symbols[2].kind, SymbolKind::Const);
    assert_eq!(symbols[2].type_info, "i64");
    assert_eq!(symbols[2].location, "constant");
}

#[test]
fn filtering_keeps_kinds_and_matches_names_case_insensitively() {
    let symbols = vec![
        symbol("zeta", SymbolKind::Function),
        symbol("Point", SymbolKind::Struct),
        symbol("alpha", SymbolKind::Function),
        symbol("Shape", SymbolKind::Interface),
    ];
    let kept = filter_symbols(symbols, &vec![SymbolKind::Function], &None);
    let names: Vec<&str> = kept.iter().map(|s| s.name.as_str()).collect();
    assert_eq!(names, vec!["alpha", "zeta"]);

    let symbols = vec![symbol("zeta", SymbolKind::Function), symbol("Point", SymbolKind::Struct), symbol("spot", SymbolKind::Const)];
    let kept = filter_symbols(symbols, &vec![SymbolKind::All], &Some("PO".to_string()));
    let names: Vec<&str> = kept.iter().map(|s| s.name.as_str()).collect();
    assert_eq!(names, vec!["Point", "spot"]);
}

#[test]
fn listing_is_sorted_by_kind_then_name() {
    let symbols = vec![
        symbol("b", SymbolKind::Const),
        symbol("a", SymbolKind::Const),
        symbol("Z", SymbolKind::Struct),
        symbol("m", SymbolKind::Enum),
    ];
    let kept = filter_symbols(symbols, &vec![], &None);
    let names: Vec<&str> = kept.iter().map(|s| s.name.as_str()).collect();
    assert_eq!(names, vec!["Z", "m", "a", "b"]);
}

#[test]
fn symbol_table_text() {
    let mut s = symbol("main", SymbolKind::Function);
    s.visibility = Visibility::Public;
    s.type_info = "() -> void".to_string();
    let lines = symbol_table_lines(&vec![s]);
    assert_eq!(
        lines,
        vec![
            "Kind       | Visibility   | Name (Type)".to_string(),
            "------------|--------------|------------------------------------------------".to_string(),
            "function   | public       | main () -> void".to_string(),
            String::new(),
            "Total symbols: 1".to_string(),
        ]
    );
}

#[test]
fn symbol_kind_display_name_reads_back() {
    let kinds = vec![
        SymbolKind::Struct,
        SymbolKind::Interface,
        SymbolKind::Function,
        SymbolKind::Enum,
        SymbolKind::Error,
        SymbolKind::Const,
        SymbolKind::All,
    ];
    for k in kinds {
        assert_eq!(SymbolKind::from_str(k.display_name()), Some(k));
    }
}

#[test]
fn symbol_kind_upper_display_name_reads_back() {
    let kinds = vec![
        SymbolKind::Struct,
        SymbolKind::Interface,
        SymbolKind::Function,
        SymbolKind::Enum,
        SymbolKind::Error,
        SymbolKind::Const,
        SymbolKind::All,
    ];
    for k in kinds {
        assert_eq!(SymbolKind::from_str(&k.display_name().to_uppercase()), Some(k));
    }
}
