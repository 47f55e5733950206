use langc::ast::{FnDef, FnParam, Program, Span, Stmt, StructDef, StructField, Type, Visibility, Mutability};
use langc::cmd::typelist::{TypeRegistry, collect_program_types, collect_type, is_concrete_type, list_types_from_ast_program, type_list_lines};

fn custom(name: &str, args: Vec<Type>) -> Type {
    Type::Custom { name: name.to_string(), generic_args: args, is_exported: false }
}

fn empty_program() -> Program {
    Program {
        functions: vec![],
        external_functions: vec![],
        structs: vec![],
        interfaces: vec![],
        enums: vec![],
        errors: vec![],
        imports: vec![],
    }
}

fn point_program() -> Program {
    let mut p = empty_program();
    p.structs.push(StructDef {
        name: "Point".to_string(),
        fields: vec![
            StructField { name: "x".to_string(), ty: Type::I64, visibility: Visibility::Public },
            StructField { name: "y".to_string(), ty: Type::I64, visibility: Visibility::Public },
        ],
        methods: vec![],
        interface_impls: vec![],
        visibility: Visibility::Public,
        generic_params: vec![],
        span: Span::default(),
    });
    p.functions.push(FnDef {
        name: "main".to_string(),
        visibility: Visibility::Private,
        params: vec![FnParam { name: "n".to_string(), ty: Type::Option(Box::new(Type::I64)) }],
        return_ty: Type::Void,
        body: vec![Stmt::Let {
            mutability: Mutability::Var,
            name: "b".to_string(),
            names: None,
            ty: Some(Type::Bool),
            value: None,
            visibility: Visibility::Private,
            span: Span::default(),
        }],
        generic_params: vec![],
        generic_constraints: vec![],
        span: Span::default(),
    });
    p
}

#[test]
fn registry_ids_follow_first_appearance() {
    let mut reg = TypeRegistry::new();
    assert_eq!(reg.get_type_id(&Type::I64), 0);
    assert_eq!(reg.get_type_id(&Type::Bool), 1);
    assert_eq!(reg.get_type_id(&Type::I64), 0);
    assert_eq!(reg.get_type_id(&custom("Point", vec![])), 2);
    assert_eq!(reg.types.len(), 3);
}

#[test]
fn collecting_a_type_visits_its_parts() {
    let mut reg = TypeRegistry::new();
    let mut list: Vec<(u32, Type)> = Vec::new();
    collect_type(&Type::Pointer(Box::new(Type::Tuple(vec![Type::I32, Type::I32]))), &mut reg, &mut list);
    let ids: Vec<u32> = list.iter().map(|e| e.0).collect();
    assert_eq!(ids, vec![0, 1, 2, 2]);
    assert_eq!(list[2].1, Type::I32);
}

#[test]
fn program_types_come_in_walk_order() {
    let l = collect_program_types(&point_program());
    let types: Vec<Type> = l.iter().map(|e| e.1.deep_clone()).collect();
    assert_eq!(
        types,
        vec![
            Type::Custom { name: "Point".to_string(), generic_args: vec![], is_exported: true },
            Type::I64,
            Type::I64,
            Type::Void,
            Type::Option(Box::new(Type::I64)),
            Type::I64,
            Type::Bool,
        ]
    );
    let ids: Vec<u32> = l.iter().map(|e| e.0).collect();
    assert_eq!(ids, vec![0, 1, 1, 2, 3, 1, 4]);
}

#[test]
fn type_listing_of_a_program() {
    let lines = list_types_from_ast_program(&point_program());
    assert_eq!(
        lines,
        vec![
            "Type ID | Type".to_string(),
            "--------|------".to_string(),
            "      0 | Point".to_string(),
            "      1 | i64".to_string(),
            "      2 | void".to_string(),
            "      3 | ?i64".to_string(),
            "      4 | bool".to_string(),
            String::new(),
            "Total types: 5".to_string(),
        ]
    );
}

#[test]
fn empty_program_lists_no_types() {
    let lines = list_types_from_ast_program(&empty_program());
    assert_eq!(lines, vec!["Type ID | Type", "--------|------", "", "Total types: 0"]);
}

#[test]
fn type_table_sorts_by_id() {
    let lines = type_list_lines(&vec![(12, Type::U8), (3, Type::F32)]);
    assert_eq!(lines, vec!["Type ID | Type", "--------|------", "      3 | f32", "     12 | u8", "", "Total types: 2"]);
}

#[test]
fn concrete_types() {
    assert!(is_concrete_type(&Type::I64));
    assert!(is_concrete_type(&custom("Box", vec![Type::GenericParam("T".to_string())])));
    assert!(!is_concrete_type(&custom("Box", vec![Type::I32])));
    assert!(!is_concrete_type(&Type::Option(Box::new(custom("Box", vec![Type::I32])))));
    assert!(!is_concrete_type(&Type::Tuple(vec![Type::Bool, custom("Box", vec![Type::U8])])));
    assert!(is_concrete_type(&Type::Function { params: vec![Type::I64], return_type: Box::new(Type::Void) }));
    assert!(!is_concrete_type(&Type::Function {
        params: vec![custom("Box", vec![Type::I64])],
        return_type: Box::new(Type::Void),
    }));
}
